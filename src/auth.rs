use vstd::prelude::*;

verus! {

/// The prompt written to a new connection before its name is read.
pub const NAME_PROMPT: &'static str = "Enter Name";

/// The size of the one read that carries a player's name.
pub const NAME_BUFFER_LEN: usize = 1024;

/// The text that lossy UTF-8 decoding gives for `bytes`.
pub uninterp spec fn lossy_text(bytes: Seq<u8>) -> Seq<char>;

/// Bytes that are all ASCII.
pub open spec fn all_ascii(bytes: Seq<u8>) -> bool {
    forall|i: int| 0 <= i < bytes.len() ==> bytes[i] < 128
}

/// Relies on `String::from_utf8_lossy`: invalid sequences become U+FFFD, and
/// ASCII input (valid UTF-8) decodes to the same characters.
#[verifier::external_body]
fn decode_lossy(bytes: &[u8]) -> (r: String)
    ensures
        r@ == lossy_text(bytes@),
        all_ascii(bytes@) ==> r@ == bytes@.map_values(|b: u8| b as char),
{
    String::from_utf8_lossy(bytes).into_owned()
}

/// Why a connection could not be authenticated.
#[derive(Clone, Copy, PartialEq, Eq, Structural, Debug)]
pub enum AuthError {
    /// The prompt could not be written.
    PromptWrite,
    /// The name could not be read.
    Read,
}

/// The name carried by the first `n_bytes` bytes of `buffer`, decoded verbatim.
pub fn name_from_bytes(buffer: &[u8], n_bytes: usize) -> (r: String)
    requires
        n_bytes <= buffer@.len(),
    ensures
        r@ == lossy_text(buffer@.subrange(0, n_bytes as int)),
        all_ascii(buffer@.subrange(0, n_bytes as int)) ==> r@ == buffer@.subrange(
            0,
            n_bytes as int,
        ).map_values(|b: u8| b as char),
{
    decode_lossy(&buffer[0..n_bytes])
}

/// The outcome of one name exchange: whether the prompt was written, and how
/// many bytes the single read placed in `buffer`, if it succeeded.
pub fn authenticate(prompt_written: bool, read: Option<usize>, buffer: &[u8]) -> (r: Result<
    String,
    AuthError,
>)
    requires
        read matches Some(n) ==> n <= buffer@.len(),
    ensures
        !prompt_written ==> r == Err::<String, AuthError>(AuthError::PromptWrite),
        prompt_written && read is None ==> r == Err::<String, AuthError>(AuthError::Read),
        prompt_written && read is Some ==> (r matches Ok(name) && name@ == lossy_text(
            buffer@.subrange(0, read->Some_0 as int),
        )),
{
    if !prompt_written {
        return Err(AuthError::PromptWrite);
    }
    match read {
        None => Err(AuthError::Read),
        Some(n) => Ok(name_from_bytes(buffer, n)),
    }
}

} // verus!
