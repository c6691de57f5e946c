//! The engine's return codes and the one place where they become typed errors.
use vstd::prelude::*;
use vstd::std_specs::convert::FromSpecImpl;

verus! {

/// Return code of the engine at the end of a stream.
pub const AVERROR_EOF: i32 = -541478725;

/// Return code of the engine when no decoder matches.
pub const AVERROR_DECODER_NOT_FOUND: i32 = -1128613112;

/// Return code of the engine when no encoder matches.
pub const AVERROR_ENCODER_NOT_FOUND: i32 = -1129203192;

/// Return code of the engine for input it cannot make sense of.
pub const AVERROR_INVALIDDATA: i32 = -1094995529;

/// The errno for "resource temporarily unavailable" on Linux, Android and
/// Windows. Other systems number it differently.
pub const EAGAIN: i32 = 11;

/// Return code of the engine when output has to be drained, or input sent,
/// before the call can make progress: the negated [`EAGAIN`].
pub const AVERROR_EAGAIN: i32 = -11;

/// Four bytes packed into one number, the first byte lowest.
pub open spec fn tag(a: int, b: int, c: int, d: int) -> int {
    a + b * 0x100 + c * 0x1_0000 + d * 0x100_0000
}

/// The error that a return code of the engine stands for.
pub open spec fn translate(code: i32) -> Error {
    if code == AVERROR_EOF {
        Error::Eof
    } else if code == AVERROR_DECODER_NOT_FOUND {
        Error::DecoderNotFound
    } else if code == AVERROR_ENCODER_NOT_FOUND {
        Error::EncoderNotFound
    } else if code == AVERROR_INVALIDDATA {
        Error::InvalidData
    } else if code == AVERROR_EAGAIN {
        Error::TryAgain
    } else {
        Error::Other(code)
    }
}

/// What a call into the engine amounts to, judged by its return code alone:
/// a negative code is the error it translates to, anything else is success.
pub open spec fn outcome(code: i32) -> Result<(), Error> {
    if code < 0 {
        Err(translate(code))
    } else {
        Ok(())
    }
}

/// A failure reported by the engine or by this layer.
#[derive(Clone, Copy, Debug, PartialEq, Eq, Structural)]
pub enum Error {
    /// The stream has ended.
    Eof,
    /// No decoder matches, or the codec offered cannot decode.
    DecoderNotFound,
    /// No encoder matches.
    EncoderNotFound,
    /// The input, or the request, does not fit the context.
    InvalidData,
    /// Nothing can be done right now: drain the outputs, or send more input,
    /// and call again. Part of the normal flow, not a failure to give up on.
    TryAgain,
    /// Any other return code of the engine, kept as it came.
    Other(i32),
}

impl Error {
    /// The return code that this error stands for.
    pub open spec fn spec_code(self) -> i32 {
        match self {
            Error::Eof => AVERROR_EOF,
            Error::DecoderNotFound => AVERROR_DECODER_NOT_FOUND,
            Error::EncoderNotFound => AVERROR_ENCODER_NOT_FOUND,
            Error::InvalidData => AVERROR_INVALIDDATA,
            Error::TryAgain => AVERROR_EAGAIN,
            Error::Other(code) => code,
        }
    }

    /// Whether this value is the one that translation gives for its code: an
    /// `Other` never hides a code that has a variant of its own.
    pub open spec fn canonical(self) -> bool {
        translate(self.spec_code()) == self
    }

    /// The return code that this error stands for.
    #[verifier::when_used_as_spec(spec_code)]
    pub fn code(self) -> (code: i32)
        ensures
            code == self.spec_code(),
    {
        match self {
            Error::Eof => AVERROR_EOF,
            Error::DecoderNotFound => AVERROR_DECODER_NOT_FOUND,
            Error::EncoderNotFound => AVERROR_ENCODER_NOT_FOUND,
            Error::InvalidData => AVERROR_INVALIDDATA,
            Error::TryAgain => AVERROR_EAGAIN,
            Error::Other(code) => code,
        }
    }

    /// Whether the caller should simply call again later.
    pub fn is_again(self) -> (again: bool)
        ensures
            again == (self == Error::TryAgain),
    {
        match self {
            Error::TryAgain => true,
            _ => false,
        }
    }
}

impl From<i32> for Error {
    fn from(code: i32) -> (error: Error) {
        if code == AVERROR_EOF {
            Error::Eof
        } else if code == AVERROR_DECODER_NOT_FOUND {
            Error::DecoderNotFound
        } else if code == AVERROR_ENCODER_NOT_FOUND {
            Error::EncoderNotFound
        } else if code == AVERROR_INVALIDDATA {
            Error::InvalidData
        } else if code == AVERROR_EAGAIN {
            Error::TryAgain
        } else {
            Error::Other(code)
        }
    }
}

impl FromSpecImpl<i32> for Error {
    open spec fn obeys_from_spec() -> bool {
        true
    }

    open spec fn from_spec(code: i32) -> Error {
        translate(code)
    }
}

/// Judges a call into the engine by its return code: a negative code becomes
/// the error it translates to, and no other code is ever taken for a failure.
pub fn check(code: i32) -> (result: Result<(), Error>)
    ensures
        result == outcome(code),
{
    if code < 0 {
        Err(Error::from(code))
    } else {
        Ok(())
    }
}

/// The named codes are the engine's four-byte tags, negated, and the code for
/// "try again" is the negated errno.
pub proof fn lemma_codes_are_tags()
    ensures
        AVERROR_EOF == -tag('E' as int, 'O' as int, 'F' as int, ' ' as int),
        AVERROR_DECODER_NOT_FOUND == -tag(0xF8, 'D' as int, 'E' as int, 'C' as int),
        AVERROR_ENCODER_NOT_FOUND == -tag(0xF8, 'E' as int, 'N' as int, 'C' as int),
        AVERROR_INVALIDDATA == -tag('I' as int, 'N' as int, 'D' as int, 'A' as int),
        AVERROR_EAGAIN == -EAGAIN,
{
}

/// Translation loses nothing: the error made from a code gives that code back.
pub proof fn lemma_code_of_translated(code: i32)
    ensures
        translate(code).spec_code() == code,
        translate(code).canonical(),
{
}

/// Whether `code` is one of the codes that have a variant of their own.
pub open spec fn named(code: i32) -> bool {
    ||| code == AVERROR_EOF
    ||| code == AVERROR_DECODER_NOT_FOUND
    ||| code == AVERROR_ENCODER_NOT_FOUND
    ||| code == AVERROR_INVALIDDATA
    ||| code == AVERROR_EAGAIN
}

/// Every error is what its own code translates to, but for an `Other` that
/// holds a code with a variant of its own: translation never makes such a
/// value.
pub proof fn lemma_translate_of_code(error: Error)
    ensures
        translate(error.spec_code()) == error <==> !(error matches Error::Other(code) && named(
            code,
        )),
        forall|code: i32| #[trigger] translate(code) is Other <==> !named(code),
{
}

/// Only negative codes fail, and each fails with its own translation.
pub proof fn lemma_outcome(code: i32)
    ensures
        outcome(code) is Ok <==> code >= 0,
        outcome(code) is Err ==> outcome(code) == Err::<(), Error>(translate(code)),
{
}

} // verus!
