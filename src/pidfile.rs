//! The PID file store: what is written to the PID file and what is read
//! back from it. The file's presence is the only liveness signal.
use crate::error::DaemonError;
use crate::text::{
    all_white_space, decimal_text, lemma_trimmed_decimal, text_from_bytes, trim_text, trimmed,
    u32_text,
};
use vstd::prelude::*;
use vstd::utf8::{encode_utf8, encode_utf8_decode_utf8, encode_utf8_valid_utf8, valid_utf8};

verus! {

/// What reading the PID file yields, given its contents (`None` where no
/// file exists).
pub open spec fn read_pid_spec(contents: Option<Seq<u8>>) -> Result<Option<Seq<char>>, DaemonError> {
    match contents {
        None => Ok(None),
        Some(b) => if valid_utf8(b) {
            Ok(Some(trimmed(vstd::utf8::decode_utf8(b))))
        } else {
            Err(DaemonError::PidNotText)
        },
    }
}

/// The bytes of an optional file, as a sequence.
pub open spec fn contents_view(contents: Option<Vec<u8>>) -> Option<Seq<u8>> {
    match contents {
        None => None,
        Some(b) => Some(b@),
    }
}

/// The outcome of a read of the PID file, with its text as a sequence.
pub open spec fn read_view(r: Result<Option<String>, DaemonError>) -> Result<
    Option<Seq<char>>,
    DaemonError,
> {
    match r {
        Ok(None) => Ok(None),
        Ok(Some(t)) => Ok(Some(t@)),
        Err(e) => Err(e),
    }
}

/// The process id recorded in a PID file whose text is `text`: the text
/// without surrounding white space.
pub fn pid_from_text(text: &str) -> (r: String)
    ensures
        r@ == trimmed(text@),
{
    trim_text(text)
}

/// Reads the recorded process id from the PID file's `contents`: none
/// where there is no file, an error where the bytes are not text.
pub fn read_pid(contents: Option<Vec<u8>>) -> (r: Result<Option<String>, DaemonError>)
    ensures
        read_view(r) == read_pid_spec(contents_view(contents)),
{
    match contents {
        None => Ok(None),
        Some(b) => match text_from_bytes(b) {
            None => Err(DaemonError::PidNotText),
            Some(t) => Ok(Some(pid_from_text(t.as_str()))),
        },
    }
}

/// The text written to the PID file for process `pid`.
pub fn write_pid(pid: u32) -> (r: String)
    ensures
        r@ == decimal_text(pid as nat),
{
    u32_text(pid)
}

/// Writing a process id and reading it back gives its decimal text,
/// whatever white space surrounds it in the file.
pub proof fn lemma_pid_round_trip(pid: u32, before: Seq<char>, after: Seq<char>)
    requires
        all_white_space(before),
        all_white_space(after),
    ensures
        trimmed(before + decimal_text(pid as nat) + after) == decimal_text(pid as nat),
        read_pid_spec(Some(encode_utf8(before + decimal_text(pid as nat) + after))) == Ok::<
            Option<Seq<char>>,
            DaemonError,
        >(Some(decimal_text(pid as nat))),
{
    let text = before + decimal_text(pid as nat) + after;
    lemma_trimmed_decimal(pid as nat, before, after);
    encode_utf8_valid_utf8(text);
    encode_utf8_decode_utf8(text);
}

} // verus!
