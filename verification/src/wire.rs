//! The wire format of a status message: one JSON object per message, with
//! the fields `name`, `size` and `max_capacity`, in that order.
use vstd::prelude::*;
use vstd::string::StringExecFns;

verus! {

/// The character that stands for the decimal digit `d`.
pub open spec fn digit_char(d: nat) -> char
    recommends
        d < 10,
{
    ((48 + d) as u8) as char
}

/// `n` in decimal notation, without sign or leading zeros.
pub open spec fn decimal_text(n: nat) -> Seq<char>
    decreases n,
{
    if n < 10 {
        seq![digit_char(n)]
    } else {
        decimal_text(n / 10).push(digit_char(n % 10))
    }
}

/// The decimal digit `d` as a string of one character.
fn digit_str(d: usize) -> (s: &'static str)
    requires
        d < 10,
    ensures
        s@ == seq![digit_char(d as nat)],
{
    proof {
        reveal_strlit("0");
        reveal_strlit("1");
        reveal_strlit("2");
        reveal_strlit("3");
        reveal_strlit("4");
        reveal_strlit("5");
        reveal_strlit("6");
        reveal_strlit("7");
        reveal_strlit("8");
        reveal_strlit("9");
    }
    let s = match d {
        0 => "0",
        1 => "1",
        2 => "2",
        3 => "3",
        4 => "4",
        5 => "5",
        6 => "6",
        7 => "7",
        8 => "8",
        _ => "9",
    };
    assert(s@ =~= seq![digit_char(d as nat)]);
    s
}

/// Writes `n` in decimal notation.
pub fn decimal(n: usize) -> (text: String)
    ensures
        text@ == decimal_text(n as nat),
    decreases n,
{
    if n < 10 {
        String::from_str(digit_str(n))
    } else {
        let mut text = decimal(n / 10);
        text.append(digit_str(n % 10));
        text
    }
}

/// The error of `serde_json`, carried through as an opaque value.
#[verifier::external_type_specification]
#[verifier::external_body]
pub struct ExJsonError(serde_json::Error);

/// The JSON string literal for the text `s`, quotes and escapes included, as
/// `serde_json` writes it, if it writes one.
pub uninterp spec fn json_string(s: Seq<char>) -> Option<Seq<char>>;

/// Calls `serde_json::to_string` on a string slice. Whether it succeeds, and
/// the JSON string literal that it then returns, depend on `s` alone.
#[verifier::external_body]
fn quote(s: &str) -> (out: Result<String, serde_json::Error>)
    ensures
        match out {
            Ok(text) => json_string(s@) == Some(text@),
            Err(_) => json_string(s@).is_none(),
        },
{
    serde_json::to_string(s)
}

/// Why a status message could not be encoded.
#[derive(Debug, Clone, PartialEq, Eq)]
pub struct EncodeError {
    /// The encoder's own description of the failure.
    pub detail: String,
}

/// The encoded status message, given the JSON string literal of its name.
pub open spec fn frame_text(name_json: Seq<char>, size: nat, max_capacity: nat) -> Seq<char> {
    "{\"name\":"@ + name_json + ",\"size\":"@ + decimal_text(size) + ",\"max_capacity\":"@
        + decimal_text(max_capacity) + "}"@
}

/// Assembles the encoded status message around the JSON string literal of
/// its name.
pub fn frame(name_json: &str, size: usize, max_capacity: usize) -> (text: String)
    ensures
        text@ == frame_text(name_json@, size as nat, max_capacity as nat),
{
    let mut text = String::from_str("{\"name\":");
    text.append(name_json);
    text.append(",\"size\":");
    text.append(decimal(size).as_str());
    text.append(",\"max_capacity\":");
    text.append(decimal(max_capacity).as_str());
    text.append("}");
    text
}

/// The encoded status message for the outcome `quoted` of encoding its name:
/// the frame around the literal, or the encoder's failure.
pub fn frame_quoted(quoted: Result<String, serde_json::Error>, size: usize, max_capacity: usize) -> (out:
    Result<String, EncodeError>)
    ensures
        quoted is Ok <==> out is Ok,
        quoted matches Ok(name_json) ==> out matches Ok(text) && text@ == frame_text(
            name_json@,
            size as nat,
            max_capacity as nat,
        ),
        quoted matches Err(e) ==> out matches Err(failure)
            && vstd::string::to_string_from_display_ensures(&e, failure.detail),
{
    match quoted {
        Ok(name_json) => Ok(frame(name_json.as_str(), size, max_capacity)),
        Err(e) => Err(EncodeError { detail: e.to_string() }),
    }
}

/// Encodes the status message with the given fields: the frame around the
/// JSON string literal of `name`, or a failure where `name` has none.
pub fn encode(name: &str, size: usize, max_capacity: usize) -> (out: Result<String, EncodeError>)
    ensures
        match json_string(name@) {
            Some(name_json) => out matches Ok(text) && text@ == frame_text(
                name_json,
                size as nat,
                max_capacity as nat,
            ),
            None => out is Err,
        },
{
    frame_quoted(quote(name), size, max_capacity)
}

} // verus!
