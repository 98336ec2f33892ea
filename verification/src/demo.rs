//! A small set of functions to serve, as a host would define them: plain
//! calls, calls that look at the request and at injected values, a call
//! with errors of its own, and the items of two streams.

use crate::context::RequestContext;
use crate::error::{ErrorModel, ServerFnError};
use crate::scope::{not_found_message, provide_context, use_context, Scope};
use vstd::prelude::*;
use vstd::string::StringExecFns;

verus! {

/// The sum of two numbers. The sum must fit.
pub fn add(a: i32, b: i32) -> (sum: Result<i32, ServerFnError>)
    requires
        i32::MIN <= a + b <= i32::MAX,
    ensures
        sum == Ok::<i32, ServerFnError>((a + b) as i32),
{
    Ok(a + b)
}

/// The text that greets `name`.
pub open spec fn greeting(name: Seq<char>) -> Seq<char> {
    "Hello, "@ + name + "! Greetings from the server."@
}

/// A greeting for `name`.
pub fn greet(name: &str) -> (greeted: Result<String, ServerFnError>)
    ensures
        greeted matches Ok(text) && text@ == greeting(name@),
{
    Ok(String::from_str("Hello, ").concat(name).concat("! Greetings from the server."))
}

/// What a caller is told about its own request.
#[derive(Debug, Clone, PartialEq, Eq)]
pub struct WhoamiResponse {
    pub user_agent: String,
    pub ip: String,
    pub path: String,
}

/// Tells a caller what the server sees of it: its `User-Agent`, its address
/// as text, and the path it asked for; `unknown` stands for a header or an
/// address that is not there.
pub fn whoami(context: &RequestContext, client_ip: Option<&str>) -> (seen: WhoamiResponse)
    ensures
        seen.user_agent@ == match context.spec_header("user-agent"@) {
            Some(agent) => agent,
            None => "unknown"@,
        },
        seen.ip@ == match client_ip {
            Some(address) => address@,
            None => "unknown"@,
        },
        seen.path@ == context.spec_path(),
{
    let user_agent = match context.header("user-agent") {
        Some(agent) => String::from_str(agent),
        None => String::from_str("unknown"),
    };
    let ip = match client_ip {
        Some(address) => String::from_str(address),
        None => String::from_str("unknown"),
    };
    WhoamiResponse { user_agent, ip, path: String::from_str(context.path()) }
}

/// The configuration of the application, as it is injected into handlers.
#[derive(Debug, PartialEq, Eq)]
pub struct AppConfig {
    pub app_name: String,
    pub version: String,
}

impl Clone for AppConfig {
    fn clone(&self) -> (copy: Self)
        ensures
            copy.app_name@ == self.app_name@,
            copy.version@ == self.version@,
    {
        AppConfig { app_name: self.app_name.clone(), version: self.version.clone() }
    }
}

/// What a caller is told about the application.
#[derive(Debug, Clone, PartialEq, Eq)]
pub struct AppInfoResponse {
    pub app_name: String,
    pub version: String,
}

/// The tag under which the configuration is injected.
pub open spec fn config_tag() -> Seq<char> {
    "AppConfig"@
}

/// Provides the configuration to the scope and reads it back, as a handler
/// behind a middleware would. Inside a container this gives the name and
/// version provided; outside any container nothing can be provided, and the
/// answer is the error for a value that was not found.
pub fn get_app_info(scope: &mut Scope<AppConfig>) -> (info: Result<AppInfoResponse, ServerFnError>)
    ensures
        match info {
            Ok(found) => old(scope).containers().len() > 0 && found.app_name@ == "demo-server"@
                && found.version@ == "0.1.0"@,
            Err(error) => old(scope).containers().len() == 0 && error@ == ErrorModel::<
                (),
            >::Custom(not_found_message(config_tag())),
        },
        final(scope).requests() == old(scope).requests(),
        final(scope).containers().len() == old(scope).containers().len(),
{
    let provided = AppConfig {
        app_name: String::from_str("demo-server"),
        version: String::from_str("0.1.0"),
    };
    provide_context(scope, "AppConfig", provided);
    match use_context(scope, "AppConfig") {
        Ok(config) => Ok(AppInfoResponse { app_name: config.app_name, version: config.version }),
        Err(error) => Err(error),
    }
}

/// An error of arithmetic, as the application reports it.
#[derive(Debug, Clone, Copy, PartialEq, Eq, Structural)]
pub enum MathError {
    DivisionByZero,
    Overflow { a: i32, b: i32 },
    NegativeResult,
}

/// What dividing `a` by `b` gives: an error for a zero divisor, for the one
/// quotient that does not fit, and for a negative quotient; else the
/// quotient, rounded towards zero.
pub open spec fn quotient(a: i32, b: i32) -> Result<i32, MathError> {
    if b == 0 {
        Err(MathError::DivisionByZero)
    } else if a == i32::MIN && b == -1 {
        Err(MathError::Overflow { a, b })
    } else if (a < 0 && b > 0) || (a > 0 && b < 0) {
        if -b < a < b || b < a < -b {
            Ok(0i32)
        } else {
            Err(MathError::NegativeResult)
        }
    } else if a >= 0 {
        Ok((a / b) as i32)
    } else {
        Ok(((-a) / (-b)) as i32)
    }
}

/// Divides `a` by `b`, with errors of the application's own.
pub fn divide(a: i32, b: i32) -> (divided: Result<i32, ServerFnError<MathError>>)
    ensures
        divided == match quotient(a, b) {
            Ok(value) => Ok::<i32, ServerFnError<MathError>>(value),
            Err(error) => Err::<i32, ServerFnError<MathError>>(ServerFnError::AppError(error)),
        },
{
    if b == 0 {
        return Err(ServerFnError::app_error(MathError::DivisionByZero));
    }
    if a == i32::MIN && b == -1 {
        return Err(ServerFnError::app_error(MathError::Overflow { a, b }));
    }
    let dividend: i64 = a as i64;
    let divisor: i64 = b as i64;
    if (a < 0 && b > 0) || (a > 0 && b < 0) {
        // a quotient of numbers of unlike sign is negative unless it rounds
        // to zero
        let rounds_to_zero = if b > 0 {
            -divisor < dividend
        } else {
            dividend < -divisor
        };
        if rounds_to_zero {
            return Ok(0);
        }
        return Err(ServerFnError::app_error(MathError::NegativeResult));
    }
    if a >= 0 {
        Ok(a / b)
    } else {
        let wide: i64 = (-dividend) / (-divisor);
        assert(0 <= wide <= i32::MAX) by (nonlinear_arith)
            requires
                wide == (-dividend) / (-divisor),
                0 < -dividend <= 2147483648,
                1 <= -divisor,
                !(-dividend == 2147483648 && -divisor == 1),
        ;
        Ok(wide as i32)
    }
}

/// The number of items the counter stream gives before it ends.
pub const COUNTER_ITEMS: i32 = 100;

/// The items of the counter stream: the numbers from 0 up.
pub fn counter_items() -> (items: Vec<i32>)
    ensures
        items.len() == COUNTER_ITEMS,
        forall|i: int| 0 <= i < COUNTER_ITEMS ==> items[i] == i,
{
    let mut items: Vec<i32> = Vec::new();
    let mut next: i32 = 0;
    while next < COUNTER_ITEMS
        invariant
            0 <= next <= COUNTER_ITEMS,
            items.len() == next,
            forall|i: int| 0 <= i < next ==> items[i] == i,
        decreases COUNTER_ITEMS - next,
    {
        items.push(next);
        next = next + 1;
    }
    items
}

/// One item of the tick stream.
#[derive(Debug, Clone, Copy, PartialEq, Eq, Structural)]
pub struct TickEvent {
    pub count: i32,
    pub timestamp: u64,
}

/// The item of the tick stream for tick number `count`, sent
/// `elapsed_millis` milliseconds after the stream began.
pub fn tick(count: i32, elapsed_millis: u64) -> (event: TickEvent)
    ensures
        event == (TickEvent { count, timestamp: elapsed_millis }),
{
    TickEvent { count, timestamp: elapsed_millis }
}

/// What the echo stream answers to `message`.
pub fn echo(message: &str) -> (answer: String)
    ensures
        answer@ == "Echo: "@ + message@,
{
    String::from_str("Echo: ").concat(message)
}

} // verus!
