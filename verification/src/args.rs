//! Reading the arguments of a tool call, and writing them out as options of
//! a `talosctl` command line.

use vstd::prelude::*;

use crate::json::{json_as_bool, json_as_i64, json_as_str, json_get, Json, JsonValue};
use crate::text::{i32_to_decimal, int_decimal};

verus! {

/// The texts of a command line.
pub open spec fn strs(v: Seq<String>) -> Seq<Seq<char>> {
    v.map_values(|s: String| s@)
}

pub open spec fn opt_text(o: Option<String>) -> Option<Seq<char>> {
    match o {
        Some(s) => Some(s@),
        None => None,
    }
}

/// The argument `key` where it is a string.
pub open spec fn arg_str(args: Json, key: Seq<char>) -> Option<Seq<char>> {
    match json_get(args, key) {
        Some(v) => json_as_str(v),
        None => None,
    }
}

/// The argument `key` where it is a boolean, and `false` otherwise.
pub open spec fn arg_flag(args: Json, key: Seq<char>) -> bool {
    match json_get(args, key) {
        Some(v) => json_as_bool(v) == Some(true),
        None => false,
    }
}

/// The argument `key` where it is an integer that fits in an `i64`, cut
/// down to an `i32` as `as` does.
pub open spec fn arg_int(args: Json, key: Seq<char>) -> Option<i32> {
    match json_get(args, key) {
        Some(v) => match json_as_i64(v) {
            Some(i) => Some(i as i32),
            None => None,
        },
        None => None,
    }
}

/// The message for a required argument that is missing or not a string.
pub open spec fn missing_param(key: Seq<char>) -> Seq<char> {
    "Missing required parameter: "@ + key
}

/// `flag value` where `value` is there, and nothing otherwise.
pub open spec fn option_pair(flag: Seq<char>, value: Option<Seq<char>>) -> Seq<Seq<char>> {
    match value {
        Some(v) => seq![flag, v],
        None => Seq::empty(),
    }
}

/// `--context <context>` where the arguments name a context.
pub open spec fn context_args(args: Json) -> Seq<Seq<char>> {
    option_pair("--context"@, arg_str(args, "context"@))
}

/// `flag` where the boolean argument `key` is true.
pub open spec fn flag_args(args: Json, key: Seq<char>, flag: Seq<char>) -> Seq<Seq<char>> {
    if arg_flag(args, key) {
        seq![flag]
    } else {
        Seq::empty()
    }
}

/// `flag value` where the string argument `key` is there.
pub open spec fn value_args(args: Json, key: Seq<char>, flag: Seq<char>) -> Seq<Seq<char>> {
    option_pair(flag, arg_str(args, key))
}

/// `flag number` where the integer argument `key` is there.
pub open spec fn int_args(args: Json, key: Seq<char>, flag: Seq<char>) -> Seq<Seq<char>> {
    match arg_int(args, key) {
        Some(n) => seq![flag, int_decimal(n as int)],
        None => Seq::empty(),
    }
}

pub proof fn lemma_strs_push(v: Seq<String>, s: String)
    ensures
        strs(v.push(s)) == strs(v).push(s@),
{
    assert(strs(v.push(s)) =~= strs(v).push(s@));
}

/// Appends `s` to the command line.
pub fn push_text(cmd: &mut Vec<String>, s: String)
    ensures
        strs(final(cmd)@) == strs(old(cmd)@).push(s@),
{
    proof {
        lemma_strs_push(cmd@, s);
    }
    cmd.push(s);
}

/// The string argument `key`, or the message naming it where it is missing.
pub fn get_required_string(args: &JsonValue, key: &str) -> (r: Result<String, String>)
    ensures
        match r {
            Ok(s) => arg_str(args@, key@) == Some(s@),
            Err(e) => arg_str(args@, key@) is None && e@ == missing_param(key@),
        },
{
    match get_optional_string(args, key) {
        Some(s) => Ok(s),
        None => {
            let mut e = String::from_str("Missing required parameter: ");
            e.append(key);
            Err(e)
        },
    }
}

/// The string argument `key`, where it is there.
pub fn get_optional_string(args: &JsonValue, key: &str) -> (r: Option<String>)
    ensures
        opt_text(r) == arg_str(args@, key@),
{
    match args.get(key) {
        Some(v) => match v.as_str() {
            Some(s) => Some(s.clone()),
            None => None,
        },
        None => None,
    }
}

/// The boolean argument `key`, and `false` where it is missing.
pub fn get_optional_bool(args: &JsonValue, key: &str) -> (r: bool)
    ensures
        r == arg_flag(args@, key@),
{
    match args.get(key) {
        Some(v) => match v.as_bool() {
            Some(b) => b,
            None => false,
        },
        None => false,
    }
}

/// The integer argument `key`, cut down to an `i32`.
pub fn get_optional_int(args: &JsonValue, key: &str) -> (r: Option<i32>)
    ensures
        r == arg_int(args@, key@),
{
    match args.get(key) {
        Some(v) => match v.as_i64() {
            Some(i) => Some(i as i32),
            None => None,
        },
        None => None,
    }
}

/// Appends `flag value` where `value` is there.
pub fn push_option(cmd: &mut Vec<String>, flag: &str, value: Option<String>)
    ensures
        strs(final(cmd)@) == strs(old(cmd)@) + option_pair(flag@, opt_text(value)),
{
    match value {
        Some(v) => {
            push_text(cmd, String::from_str(flag));
            push_text(cmd, v);
            assert(strs(cmd@) =~= strs(old(cmd)@) + option_pair(flag@, opt_text(value)));
        },
        None => {
            assert(strs(cmd@) =~= strs(old(cmd)@) + option_pair(flag@, opt_text(value)));
        },
    }
}

/// Appends `--context <context>` where the arguments name a context.
pub fn add_context_flag(args: &JsonValue, cmd_args: &mut Vec<String>)
    ensures
        strs(final(cmd_args)@) == strs(old(cmd_args)@) + context_args(args@),
{
    let ctx = get_optional_string(args, "context");
    push_option(cmd_args, "--context", ctx);
}

/// Appends `--context <context>` where a context is given.
pub fn add_context_to_args(context: &Option<String>, cmd_args: &mut Vec<String>)
    ensures
        strs(final(cmd_args)@) == strs(old(cmd_args)@) + option_pair(
            "--context"@,
            opt_text(*context),
        ),
{
    let ctx = match context {
        Some(c) => Some(c.clone()),
        None => None,
    };
    push_option(cmd_args, "--context", ctx);
}

/// Appends `flag` where the boolean argument `key` is true.
pub fn push_flag(args: &JsonValue, key: &str, flag: &str, cmd: &mut Vec<String>)
    ensures
        strs(final(cmd)@) == strs(old(cmd)@) + flag_args(args@, key@, flag@),
{
    if get_optional_bool(args, key) {
        push_text(cmd, String::from_str(flag));
    }
    assert(strs(cmd@) =~= strs(old(cmd)@) + flag_args(args@, key@, flag@));
}

/// Appends `flag value` where the string argument `key` is there.
pub fn push_value(args: &JsonValue, key: &str, flag: &str, cmd: &mut Vec<String>)
    ensures
        strs(final(cmd)@) == strs(old(cmd)@) + value_args(args@, key@, flag@),
{
    let v = get_optional_string(args, key);
    push_option(cmd, flag, v);
}

/// Appends `flag number` where the integer argument `key` is there.
pub fn push_int(args: &JsonValue, key: &str, flag: &str, cmd: &mut Vec<String>)
    ensures
        strs(final(cmd)@) == strs(old(cmd)@) + int_args(args@, key@, flag@),
{
    match get_optional_int(args, key) {
        Some(n) => {
            push_text(cmd, String::from_str(flag));
            push_text(cmd, i32_to_decimal(n));
        },
        None => {},
    }
    assert(strs(cmd@) =~= strs(old(cmd)@) + int_args(args@, key@, flag@));
}

} // verus!
