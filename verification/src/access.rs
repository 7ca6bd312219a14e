//! The rules on who may ask for keys: bans, the per-user quota, and what a
//! message must look like before any key is derived.
//!
//! The rules are a function from what is known of the user and the message
//! to an outcome. Fetching the user, answering and recording are left to
//! the caller.

use vstd::prelude::*;
use vstd::string::*;
use crate::machine_code::{is_valid_machine_code, validate};
use crate::utils::{decimal, push_decimal};

verus! {

/// What becomes of a request.
#[derive(Debug, Clone, Copy, PartialEq, Eq, Structural)]
pub enum RequestOutcome {
    /// The user is banned. Nothing is derived.
    Banned,
    /// The user has used up the quota. Nothing is derived, and the user is
    /// to be banned.
    QuotaExhausted,
    /// The message is not a machine code. Nothing is derived.
    InvalidMachineCode,
    /// Keys are derived, and the request counts against the quota.
    Accepted,
}

/// The quota is used up: the user is no administrator and has made as
/// many requests as are allowed.
pub open spec fn quota_exhausted(is_admin: bool, request_count: i32, max_user_requests: i32) -> bool {
    !is_admin && request_count >= max_user_requests
}

/// The rules, in the order in which they are tried: the ban first, then
/// the quota, then the shape of the message.
pub open spec fn request_outcome(
    is_banned: bool,
    is_admin: bool,
    request_count: i32,
    max_user_requests: i32,
    text: Seq<char>,
) -> RequestOutcome {
    if is_banned {
        RequestOutcome::Banned
    } else if quota_exhausted(is_admin, request_count, max_user_requests) {
        RequestOutcome::QuotaExhausted
    } else if !is_valid_machine_code(text) {
        RequestOutcome::InvalidMachineCode
    } else {
        RequestOutcome::Accepted
    }
}

/// The requests left to a user once the present one is counted.
pub open spec fn requests_left(request_count: i32, max_user_requests: i32) -> int {
    max_user_requests - request_count - 1
}

/// A whole number in decimal, with a minus sign where it is negative.
pub open spec fn signed_decimal(n: int) -> Seq<char> {
    if n < 0 {
        seq!['-'] + decimal((-n) as nat)
    } else {
        decimal(n as nat)
    }
}

/// What a user is told of the requests left: a number, or for an
/// administrator that there is no limit.
pub open spec fn requests_left_text(is_admin: bool, request_count: i32, max_user_requests: i32) -> Seq<
    char,
> {
    if is_admin {
        "无限制 (管理员)"@
    } else {
        signed_decimal(requests_left(request_count, max_user_requests))
    }
}

/// Decides what becomes of a request.
pub fn review_request(
    is_banned: bool,
    is_admin: bool,
    request_count: i32,
    max_user_requests: i32,
    text: &str,
) -> (outcome: RequestOutcome)
    ensures
        outcome == request_outcome(is_banned, is_admin, request_count, max_user_requests, text@),
{
    if is_banned {
        RequestOutcome::Banned
    } else if !is_admin && request_count >= max_user_requests {
        RequestOutcome::QuotaExhausted
    } else if !validate(text) {
        RequestOutcome::InvalidMachineCode
    } else {
        RequestOutcome::Accepted
    }
}

/// The requests left to a user once the present one is counted; `None`
/// for an administrator, who has no limit.
pub fn remaining_requests(is_admin: bool, request_count: i32, max_user_requests: i32) -> (left:
    Option<i64>)
    ensures
        match left {
            None => is_admin,
            Some(n) => !is_admin && n == requests_left(request_count, max_user_requests),
        },
{
    if is_admin {
        None
    } else {
        Some(max_user_requests as i64 - request_count as i64 - 1)
    }
}

/// What a user is told of the requests left.
pub fn remaining_requests_text(is_admin: bool, request_count: i32, max_user_requests: i32) -> (text:
    String)
    ensures
        text@ == requests_left_text(is_admin, request_count, max_user_requests),
{
    match remaining_requests(is_admin, request_count, max_user_requests) {
        None => "无限制 (管理员)".to_owned(),
        Some(left) => {
            let mut text = String::new();
            if left < 0 {
                text.push('-');
                push_decimal(&mut text, (-left) as u64);
            } else {
                push_decimal(&mut text, left as u64);
            }
            text
        },
    }
}

} // verus!
