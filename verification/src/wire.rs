//! How an error travels: as the JSON text `{"type":TAG,"data":DATA}`, where
//! TAG names the variant and DATA is what the variant carries.
//!
//! The frame is this crate's own and is written and read here, character by
//! character. What stands inside it is JSON of the `serde_json` crate: the
//! texts of the errors are quoted and unquoted by it, and the data of an
//! application error is encoded and decoded by the host, which knows the
//! type.

use crate::error::{kind_from_wire_tag, kind_of_tag, ErrorKind, ErrorModel, ServerFnError};
use crate::text::{
    chars_of, decimal, digit_char, find_char, first_index, is_char, lemma_first_index,
    matches_at, occurs_at, push_decimal, string_of,
};
use vstd::prelude::*;
use vstd::string::StringExecFns;

verus! {

/// What `serde_json::to_string` gives for a string: the string as a JSON
/// string, in quotes and with its escapes.
pub uninterp spec fn json_quoted(text: Seq<char>) -> Seq<char>;

/// What `serde_json::from_str` gives when asked for a string: the string
/// that the JSON text is, or `None` where it is no JSON string.
pub uninterp spec fn json_unquoted(json: Seq<char>) -> Option<Seq<char>>;

/// `serde_json::to_string` for a string: the string as JSON. For a string
/// the call does not fail.
#[verifier::external_body]
pub(crate) fn json_quote(text: &str) -> (json: String)
    ensures
        json@ == json_quoted(text@),
{
    serde_json::to_string(text).unwrap_or_default()
}

/// `serde_json::from_str` asked for a `String`: the string that `json` is,
/// or `None` where `json` is not one JSON string.
#[verifier::external_body]
pub(crate) fn json_unquote(json: &str) -> (text: Option<String>)
    ensures
        match text {
            Some(found) => json_unquoted(json@) == Some(found@),
            None => json_unquoted(json@).is_none(),
        },
{
    serde_json::from_str::<String>(json).ok()
}

/// What stands before the tag in a frame.
pub open spec fn frame_head() -> Seq<char> {
    seq!['{', '"', 't', 'y', 'p', 'e', '"', ':', '"']
}

/// What stands between the tag and the data in a frame.
pub open spec fn frame_middle() -> Seq<char> {
    seq!['"', ',', '"', 'd', 'a', 't', 'a', '"', ':']
}

/// The frame around `tag` and `data`.
pub open spec fn frame(tag: Seq<char>, data: Seq<char>) -> Seq<char> {
    frame_head() + tag + frame_middle() + data + seq!['}']
}

/// The tag and the data of a frame, or `None` for a text that is no frame:
/// the tag runs up to the first quote after the head, the data from behind
/// the middle up to the closing brace, which is the last character.
pub open spec fn frame_parts(text: Seq<char>) -> Option<(Seq<char>, Seq<char>)> {
    let close = first_index(text, is_char('"'), 9);
    if text.len() >= 19 && occurs_at(text, frame_head(), 0) && close + 10 <= text.len()
        && occurs_at(text, frame_middle(), close) && text.last() == '}' {
        Some((text.subrange(9, close), text.subrange(close + 9, text.len() - 1)))
    } else {
        None
    }
}

/// A frame gives back what it was made of: the tag, which holds no quote,
/// and the data, whatever it holds.
pub proof fn lemma_frame_round_trip(tag: Seq<char>, data: Seq<char>)
    requires
        forall|i: int| 0 <= i < tag.len() ==> tag[i] != '"',
    ensures
        frame_parts(frame(tag, data)) == Some((tag, data)),
{
    let text = frame(tag, data);
    let close: int = 9 + tag.len() as int;
    assert(text.len() == tag.len() + data.len() + 19);
    assert(text.subrange(0, 9) =~= frame_head());
    assert forall|i: int| 9 <= i < close implies !is_char('"')(#[trigger] text[i]) by {
        assert(text[i] == tag[i - 9]);
    }
    assert(text[close] == '"');
    lemma_first_index(text, is_char('"'), 9, close);
    assert(text.subrange(close, close + 9) =~= frame_middle());
    assert(text.subrange(9, close) =~= tag);
    assert(text.subrange(close + 9, text.len() - 1) =~= data);
}

/// The frame around `tag` and `data`.
pub fn write_frame(tag: &str, data: &str) -> (text: String)
    ensures
        text@ == frame(tag@, data@),
{
    proof {
        reveal_strlit("{\"type\":\"");
        reveal_strlit("\",\"data\":");
        reveal_strlit("}");
        assert("{\"type\":\""@ =~= frame_head());
        assert("\",\"data\":"@ =~= frame_middle());
        assert("}"@ =~= seq!['}']);
    }
    String::from_str("{\"type\":\"").concat(tag).concat("\",\"data\":").concat(data).concat("}")
}

/// The tag and the data of a frame, or `None` for a text that is no frame.
pub fn read_frame(text: &str) -> (parts: Option<(String, String)>)
    ensures
        match parts {
            Some((tag, data)) => frame_parts(text@) == Some((tag@, data@)),
            None => frame_parts(text@).is_none(),
        },
{
    let chars = chars_of(text);
    if chars.len() < 19 {
        return None;
    }
    let head = chars_of("{\"type\":\"");
    let middle = chars_of("\",\"data\":");
    proof {
        reveal_strlit("{\"type\":\"");
        reveal_strlit("\",\"data\":");
        assert(head@ =~= frame_head());
        assert(middle@ =~= frame_middle());
    }
    if !matches_at(&chars, &head, 0) {
        return None;
    }
    let close = find_char(&chars, '"', 9);
    if chars.len() - close < 10 {
        return None;
    }
    if !matches_at(&chars, &middle, close) {
        return None;
    }
    if chars[chars.len() - 1] != '}' {
        return None;
    }
    Some((string_of(&chars, 9, close), string_of(&chars, close + 9, chars.len() - 1)))
}

/// The number that the decimal digits of `digits` stand for.
pub open spec fn digits_value(digits: Seq<char>) -> nat
    decreases digits.len(),
{
    if digits.len() == 0 {
        0
    } else {
        digits_value(digits.drop_last()) * 10 + ((digits.last() as u32) - ('0' as u32)) as nat
    }
}

/// Whether `text` is a number written in decimal without sign: digits
/// only, at least one, and no zero in front of other digits.
pub open spec fn is_decimal(text: Seq<char>) -> bool {
    &&& text.len() > 0
    &&& forall|i: int| 0 <= i < text.len() ==> '0' <= #[trigger] text[i] <= '9'
    &&& (text.len() == 1 || text[0] != '0')
}

/// The status that `text` stands for, where it is a number in decimal that
/// fits a status.
pub open spec fn status_value(text: Seq<char>) -> Option<u16> {
    if is_decimal(text) && digits_value(text) <= u16::MAX {
        Some(digits_value(text) as u16)
    } else {
        None
    }
}

/// The value of digits does not shrink when more digits follow.
pub proof fn lemma_digits_value_grows(digits: Seq<char>, shorter: int)
    requires
        0 <= shorter <= digits.len(),
        forall|i: int| 0 <= i < digits.len() ==> '0' <= #[trigger] digits[i] <= '9',
    ensures
        digits_value(digits.take(shorter)) <= digits_value(digits),
    decreases digits.len() - shorter,
{
    if shorter < digits.len() {
        lemma_digits_value_grows(digits, shorter + 1);
        assert(digits.take(shorter + 1).drop_last() =~= digits.take(shorter));
        assert(digits.take(shorter + 1).last() == digits[shorter]);
    } else {
        assert(digits.take(shorter) =~= digits);
    }
}

/// A number written in decimal reads back as itself.
pub proof fn lemma_decimal_round_trip(n: nat)
    ensures
        is_decimal(decimal(n)),
        digits_value(decimal(n)) == n,
        decimal(n)[0] == '0' ==> n == 0,
        n <= u16::MAX ==> status_value(decimal(n)) == Some(n as u16),
    decreases n,
{
    let last = n % 10;
    assert(((digit_char(last) as u32) - ('0' as u32)) as nat == last);
    assert('0' <= digit_char(last) <= '9');
    if n < 10 {
        assert(decimal(n) =~= seq![digit_char(n)]);
        assert(decimal(n).drop_last() =~= Seq::<char>::empty());
        assert(digits_value(decimal(n).drop_last()) == 0);
        assert(decimal(n).last() == digit_char(n));
    } else {
        lemma_decimal_round_trip(n / 10);
        let front = decimal(n / 10);
        assert(decimal(n) == front.push(digit_char(n % 10)));
        assert(decimal(n).drop_last() =~= front);
        assert(decimal(n).last() == digit_char(last));
        assert(decimal(n)[0] == front[0]);
        assert forall|i: int| 0 <= i < decimal(n).len() implies '0' <= #[trigger] decimal(n)[i]
            <= '9' by {
            if i < front.len() {
                assert(decimal(n)[i] == front[i]);
            }
        }
    }
}

/// Reads a status written in decimal.
pub fn parse_status(text: &str) -> (status: Option<u16>)
    ensures
        status == status_value(text@),
{
    let chars = chars_of(text);
    if chars.len() == 0 {
        return None;
    }
    if chars.len() > 1 && chars[0] == '0' {
        return None;
    }
    let mut value: u32 = 0;
    let mut i: usize = 0;
    assert(chars@.take(0) =~= Seq::<char>::empty());
    while i < chars.len()
        invariant
            i <= chars.len(),
            chars@ == text@,
            forall|j: int| 0 <= j < i ==> '0' <= #[trigger] chars@[j] <= '9',
            value == digits_value(chars@.take(i as int)),
            value <= u16::MAX,
        decreases chars.len() - i,
    {
        let c = chars[i];
        if !('0' <= c && c <= '9') {
            return None;
        }
        let digit: u32 = (c as u32) - ('0' as u32);
        proof {
            assert(chars@.take(i + 1).drop_last() =~= chars@.take(i as int));
            assert(chars@.take(i + 1).last() == c);
        }
        value = value * 10 + digit;
        if value > 65535 {
            proof {
                // one digit that is no digit would still refuse the text;
                // with digits only, what follows cannot make it smaller
                if is_decimal(chars@) {
                    lemma_digits_value_grows(chars@, i + 1);
                }
            }
            return None;
        }
        i = i + 1;
    }
    proof {
        assert(chars@.take(chars.len() as int) =~= chars@);
    }
    Some(value as u16)
}

/// What the data of a frame holds for `error`: the JSON string of its text,
/// its status in decimal, or, for an application error, the data the host
/// encoded.
pub open spec fn wire_data<E>(error: ErrorModel<E>, app_data: Seq<char>) -> Seq<char> {
    match error {
        ErrorModel::Serialization(detail) => json_quoted(detail),
        ErrorModel::Deserialization(detail) => json_quoted(detail),
        ErrorModel::Transport(detail) => json_quoted(detail),
        ErrorModel::ServerStatus(code) => decimal(code as nat),
        ErrorModel::Custom(message) => json_quoted(message),
        ErrorModel::AppError(_) => app_data,
    }
}

/// `error` as it travels.
pub open spec fn wire_text<E>(error: ErrorModel<E>, app_data: Seq<char>) -> Seq<char> {
    frame(error.kind().spec_wire_tag(), wire_data(error, app_data))
}

/// The error that `text` carries, with the data of an application error
/// left as it came; `None` where `text` is no frame, its tag no tag, or its
/// data not what the tag calls for.
pub open spec fn wire_error(text: Seq<char>) -> Option<ErrorModel<Seq<char>>> {
    match frame_parts(text) {
        None => None,
        Some((tag, data)) => match kind_of_tag(tag) {
            None => None,
            Some(ErrorKind::ServerStatus) => match status_value(data) {
                Some(code) => Some(ErrorModel::ServerStatus(code)),
                None => None,
            },
            Some(ErrorKind::AppError) => Some(ErrorModel::AppError(data)),
            Some(kind) => match json_unquoted(data) {
                Some(detail) => Some(
                    match kind {
                        ErrorKind::Serialization => ErrorModel::Serialization(detail),
                        ErrorKind::Deserialization => ErrorModel::Deserialization(detail),
                        ErrorKind::Transport => ErrorModel::Transport(detail),
                        _ => ErrorModel::Custom(detail),
                    },
                ),
                None => None,
            },
        },
    }
}

/// An error whose application data is text, with that text as characters.
pub open spec fn with_data_text(error: ErrorModel<String>) -> ErrorModel<Seq<char>> {
    match error {
        ErrorModel::Serialization(detail) => ErrorModel::Serialization(detail),
        ErrorModel::Deserialization(detail) => ErrorModel::Deserialization(detail),
        ErrorModel::Transport(detail) => ErrorModel::Transport(detail),
        ErrorModel::ServerStatus(code) => ErrorModel::ServerStatus(code),
        ErrorModel::Custom(message) => ErrorModel::Custom(message),
        ErrorModel::AppError(data) => ErrorModel::AppError(data@),
    }
}

/// What arrives of an error: the error itself, but for an application
/// error, of which the encoded data arrives.
pub open spec fn carried<E>(error: ErrorModel<E>, app_data: Seq<char>) -> ErrorModel<Seq<char>> {
    match error {
        ErrorModel::Serialization(detail) => ErrorModel::Serialization(detail),
        ErrorModel::Deserialization(detail) => ErrorModel::Deserialization(detail),
        ErrorModel::Transport(detail) => ErrorModel::Transport(detail),
        ErrorModel::ServerStatus(code) => ErrorModel::ServerStatus(code),
        ErrorModel::Custom(message) => ErrorModel::Custom(message),
        ErrorModel::AppError(_) => ErrorModel::AppError(app_data),
    }
}

/// The text an error carries, if it carries one.
pub open spec fn carried_text<E>(error: ErrorModel<E>) -> Option<Seq<char>> {
    match error {
        ErrorModel::Serialization(detail) => Some(detail),
        ErrorModel::Deserialization(detail) => Some(detail),
        ErrorModel::Transport(detail) => Some(detail),
        ErrorModel::Custom(message) => Some(message),
        _ => None,
    }
}

/// No tag holds a quote.
pub proof fn lemma_tags_hold_no_quote(kind: ErrorKind)
    ensures
        forall|i: int| 0 <= i < kind.spec_wire_tag().len() ==> kind.spec_wire_tag()[i] != '"',
{
    reveal_strlit("Serialization");
    reveal_strlit("Deserialization");
    reveal_strlit("Transport");
    reveal_strlit("ServerStatus");
    reveal_strlit("Custom");
    reveal_strlit("AppError");
}

/// What is encoded is what is decoded: an error read back from its wire
/// text is the error that was written, variant and all, with the data of an
/// application error as the host encoded it. For an error that carries a
/// text this rests on the JSON codec giving back the text it quoted.
pub proof fn lemma_wire_round_trip<E>(error: ErrorModel<E>, app_data: Seq<char>)
    requires
        carried_text(error) matches Some(text) ==> json_unquoted(json_quoted(text)) == Some(text),
    ensures
        wire_error(wire_text(error, app_data)) == Some(carried(error, app_data)),
{
    let tag = error.kind().spec_wire_tag();
    lemma_tags_hold_no_quote(error.kind());
    lemma_frame_round_trip(tag, wire_data(error, app_data));
    crate::error::lemma_wire_tags_round_trip(error.kind());
    if let ErrorModel::ServerStatus(code) = error {
        lemma_decimal_round_trip(code as nat);
    }
}

/// Encodes `error` for the wire. `app_data` is the application error as the
/// host encoded it; it is used for an `AppError` and for nothing else.
pub fn encode_error<E>(error: &ServerFnError<E>, app_data: &str) -> (text: String)
    ensures
        text@ == wire_text(error@, app_data@),
{
    let tag = error.kind().wire_tag();
    match error {
        ServerFnError::Serialization(detail) => write_frame(
            tag,
            json_quote(detail.as_str()).as_str(),
        ),
        ServerFnError::Deserialization(detail) => write_frame(
            tag,
            json_quote(detail.as_str()).as_str(),
        ),
        ServerFnError::Transport(detail) => write_frame(tag, json_quote(detail.as_str()).as_str()),
        ServerFnError::ServerStatus(code) => {
            let mut data = String::new();
            push_decimal(&mut data, *code as u64);
            assert(data@ =~= decimal(*code as nat));
            write_frame(tag, data.as_str())
        },
        ServerFnError::Custom(message) => write_frame(tag, json_quote(message.as_str()).as_str()),
        ServerFnError::AppError(_) => write_frame(tag, app_data),
    }
}

/// Decodes the error that `text` carries. The data of an application error
/// is handed out as it came, for the host to decode.
pub fn decode_error(text: &str) -> (error: Option<ServerFnError<String>>)
    ensures
        match error {
            Some(found) => wire_error(text@) == Some(with_data_text(found@)),
            None => wire_error(text@).is_none(),
        },
{
    let (tag, data) = match read_frame(text) {
        Some(parts) => parts,
        None => {
            return None;
        },
    };
    let kind = match kind_from_wire_tag(tag.as_str()) {
        Some(kind) => kind,
        None => {
            return None;
        },
    };
    match kind {
        ErrorKind::ServerStatus => match parse_status(data.as_str()) {
            Some(code) => Some(ServerFnError::ServerStatus(code)),
            None => None,
        },
        ErrorKind::AppError => Some(ServerFnError::AppError(data)),
        ErrorKind::Serialization => match json_unquote(data.as_str()) {
            Some(detail) => Some(ServerFnError::Serialization(detail)),
            None => None,
        },
        ErrorKind::Deserialization => match json_unquote(data.as_str()) {
            Some(detail) => Some(ServerFnError::Deserialization(detail)),
            None => None,
        },
        ErrorKind::Transport => match json_unquote(data.as_str()) {
            Some(detail) => Some(ServerFnError::Transport(detail)),
            None => None,
        },
        ErrorKind::Custom => match json_unquote(data.as_str()) {
            Some(detail) => Some(ServerFnError::Custom(detail)),
            None => None,
        },
    }
}

/// A decoded error with its application data decoded too: `app` is what the
/// host made of the data, or `None` where it could make nothing of it. An
/// application error without decoded data is no error of the taxonomy; any
/// other error is what it was.
pub fn with_app_error<E>(error: ServerFnError<String>, app: Option<E>) -> (typed: Option<
    ServerFnError<E>,
>)
    ensures
        match typed {
            Some(found) => found@ == match error@ {
                ErrorModel::Serialization(detail) => ErrorModel::<E>::Serialization(detail),
                ErrorModel::Deserialization(detail) => ErrorModel::<E>::Deserialization(detail),
                ErrorModel::Transport(detail) => ErrorModel::<E>::Transport(detail),
                ErrorModel::ServerStatus(code) => ErrorModel::<E>::ServerStatus(code),
                ErrorModel::Custom(message) => ErrorModel::<E>::Custom(message),
                ErrorModel::AppError(_) => ErrorModel::AppError(app.unwrap()),
            } && (error@ is AppError ==> app.is_some()),
            None => error@ is AppError && app.is_none(),
        },
{
    match error {
        ServerFnError::Serialization(detail) => Some(ServerFnError::Serialization(detail)),
        ServerFnError::Deserialization(detail) => Some(ServerFnError::Deserialization(detail)),
        ServerFnError::Transport(detail) => Some(ServerFnError::Transport(detail)),
        ServerFnError::ServerStatus(code) => Some(ServerFnError::ServerStatus(code)),
        ServerFnError::Custom(message) => Some(ServerFnError::Custom(message)),
        ServerFnError::AppError(_) => match app {
            Some(decoded) => Some(ServerFnError::AppError(decoded)),
            None => None,
        },
    }
}

} // verus!
