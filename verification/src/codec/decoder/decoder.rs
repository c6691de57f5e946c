//! A decoder that has not been opened yet, and the step that opens it.
use crate::codec::codec::Codec;
use crate::codec::context::{Block, Context};
use crate::codec::decoder::check::Check;
use crate::codec::decoder::conceal::Conceal;
use crate::codec::decoder::opened::Opened;
use crate::codec::discard::Discard;
use crate::util::dictionary::Dictionary;
use crate::util::error::{translate, Error};
use crate::util::media;
use crate::util::rational::Rational;
use vstd::prelude::*;

verus! {

/// A codec context set up for decoding, not opened yet.
#[derive(Debug)]
pub struct Decoder(pub Context);

/// A decoder that the engine is to open: the request for the one native call
/// that opens it, and the only way to an opened decoder.
///
/// It exists only where this layer has agreed to the opening, so a codec that
/// cannot decode never reaches the engine.
#[derive(Debug)]
pub struct Opening {
    decoder: Decoder,
    codec: Option<Codec>,
    options: Dictionary,
    expects: Option<media::Type>,
}

/// An opening that did not end in the decoder asked for, with what is left
/// of it. Nothing is lost: the context comes back in the state that the
/// engine has it in.
#[derive(Debug)]
pub enum Failed {
    /// The engine did not open the decoder, which is as it was before.
    Unopened(Error, Decoder),
    /// The engine opened the decoder, but its medium is not the one that
    /// was asked for.
    Mismatched(Opened),
}

impl Failed {
    /// The error that the failure amounts to.
    pub open spec fn spec_error(&self) -> Error {
        match self {
            Failed::Unopened(error, _) => *error,
            Failed::Mismatched(_) => Error::InvalidData,
        }
    }

    /// The error that the failure amounts to.
    #[verifier::when_used_as_spec(spec_error)]
    pub fn error(&self) -> (error: Error)
        ensures
            error == self.spec_error(),
    {
        match self {
            Failed::Unopened(error, _) => *error,
            Failed::Mismatched(_) => Error::InvalidData,
        }
    }
}

/// The codec to open a decoder with, given what the engine found for the
/// context's codec id: the error where it found none, or one that cannot
/// decode.
pub open spec fn sought(found: Option<Codec>) -> Result<Codec, Error> {
    match found {
        Some(codec) => if codec.decodes {
            Ok(codec)
        } else {
            Err(Error::DecoderNotFound)
        },
        None => Err(Error::DecoderNotFound),
    }
}

impl Opening {
    /// The decoder to be opened.
    pub closed spec fn decoder(&self) -> Decoder {
        self.decoder
    }

    /// The codec to open with; none leaves the choice to the engine.
    pub closed spec fn spec_codec(&self) -> Option<Codec> {
        self.codec
    }

    /// The options to hand to the engine.
    pub closed spec fn spec_options(&self) -> Dictionary {
        self.options
    }

    /// The medium that the opened context has to have, if one was asked for.
    pub closed spec fn spec_expects(&self) -> Option<media::Type> {
        self.expects
    }

    /// Whether `result` is what the opening comes to when the engine answers
    /// with `code`. With a negative code the decoder comes back unopened,
    /// with the error that the code stands for. Else the decoder is open;
    /// where a medium was asked for and the context has another, it comes
    /// back as a failure.
    pub open spec fn concludes(&self, code: i32, result: Result<Opened, Failed>) -> bool {
        if code < 0 {
            result matches Err(Failed::Unopened(error, decoder)) && error == translate(code)
                && decoder == self.decoder()
        } else if self.spec_expects() is Some && self.spec_expects() != Some(
            self.decoder().0@.medium,
        ) {
            result matches Err(Failed::Mismatched(opened)) && opened.decoder() == self.decoder()
        } else {
            result matches Ok(opened) && opened.decoder() == self.decoder()
        }
    }

    /// The codec to open with; none leaves the choice to the engine.
    #[verifier::when_used_as_spec(spec_codec)]
    pub fn codec(&self) -> (codec: Option<Codec>)
        ensures
            codec == self.spec_codec(),
    {
        self.codec
    }

    /// The options to hand to the engine.
    pub fn options(&self) -> (options: &Dictionary)
        ensures
            *options == self.spec_options(),
    {
        &self.options
    }

    /// The medium that the opened context has to have, if one was asked for.
    #[verifier::when_used_as_spec(spec_expects)]
    pub fn expects(&self) -> (expects: Option<media::Type>)
        ensures
            expects == self.spec_expects(),
    {
        self.expects
    }

    /// The context to be opened.
    pub fn context(&self) -> (context: &Context)
        ensures
            *context == self.decoder().0,
    {
        &self.decoder.0
    }

    /// Takes over what the engine's block holds now, as after the native
    /// call.
    pub fn refresh(&mut self, block: Block)
        ensures
            final(self).decoder().0@ == block,
            final(self).decoder().0.handle() == old(self).decoder().0.handle(),
            final(self).spec_codec() == old(self).spec_codec(),
            final(self).spec_options() == old(self).spec_options(),
            final(self).spec_expects() == old(self).spec_expects(),
    {
        self.decoder.0.refresh(block);
    }

    /// Gives the opening up before the engine was asked: the decoder and the
    /// options come back as they went in.
    pub fn abandon(self) -> (parts: (Decoder, Dictionary))
        ensures
            parts.0 == self.decoder(),
            parts.1 == self.spec_options(),
    {
        (self.decoder, self.options)
    }

    /// Concludes the opening with the engine's return code and with the
    /// options that the engine did not consume. Those options go back to the
    /// caller whatever the code was.
    pub fn finish(self, code: i32, unconsumed: Dictionary) -> (result: (
        Result<Opened, Failed>,
        Dictionary,
    ))
        ensures
            self.concludes(code, result.0),
            result.1 == unconsumed,
    {
        if code < 0 {
            return (Err(Failed::Unopened(Error::from(code), self.decoder)), unconsumed);
        }
        match self.expects {
            Some(medium) => {
                if self.decoder.0.medium() != medium {
                    return (Err(Failed::Mismatched(Opened::new(self.decoder))), unconsumed);
                }
            },
            None => {},
        }
        (Ok(Opened::new(self.decoder)), unconsumed)
    }
}

impl Decoder {
    /// Asks the engine to open the decoder with the codec of its own choice.
    pub fn open(self) -> (opening: Opening)
        ensures
            opening.decoder() == self,
            opening.spec_codec() is None,
            opening.spec_options()@.len() == 0,
            opening.spec_expects() is None,
    {
        Opening { decoder: self, codec: None, options: Dictionary::new(), expects: None }
    }

    /// Asks the engine to open the decoder with `codec`. A codec that cannot
    /// decode is refused here, before the engine sees anything, and the
    /// decoder comes back as it was.
    pub fn open_as(self, codec: Codec) -> (result: Result<Opening, (Error, Decoder)>)
        ensures
            codec.decodes <==> result is Ok,
            result is Err ==> result == Err::<Opening, (Error, Decoder)>(
                (Error::DecoderNotFound, self),
            ),
            result is Ok ==> {
                &&& result->Ok_0.decoder() == self
                &&& result->Ok_0.spec_codec() == Some(codec)
                &&& result->Ok_0.spec_options()@.len() == 0
                &&& result->Ok_0.spec_expects() is None
            },
    {
        if codec.is_decoder() {
            Ok(
                Opening {
                    decoder: self,
                    codec: Some(codec),
                    options: Dictionary::new(),
                    expects: None,
                },
            )
        } else {
            Err((Error::DecoderNotFound, self))
        }
    }

    /// Asks the engine to open the decoder with `codec` and `options`. A
    /// codec that cannot decode is refused here, and the decoder and the
    /// options come back untouched with the refusal.
    pub fn open_as_with(self, codec: Codec, options: Dictionary) -> (result: Result<
        Opening,
        (Error, Decoder, Dictionary),
    >)
        ensures
            codec.decodes <==> result is Ok,
            result is Err ==> result == Err::<Opening, (Error, Decoder, Dictionary)>(
                (Error::DecoderNotFound, self, options),
            ),
            result is Ok ==> {
                &&& result->Ok_0.decoder() == self
                &&& result->Ok_0.spec_codec() == Some(codec)
                &&& result->Ok_0.spec_options() == options
                &&& result->Ok_0.spec_expects() is None
            },
    {
        if codec.is_decoder() {
            Ok(Opening { decoder: self, codec: Some(codec), options, expects: None })
        } else {
            Err((Error::DecoderNotFound, self, options))
        }
    }

    /// Asks for the decoder opened with the codec `found` that the engine
    /// has for the context's codec id, and insists on `medium` once it is
    /// open.
    fn lookup(self, found: Option<Codec>, medium: media::Type) -> (result: Result<
        Opening,
        (Error, Decoder),
    >)
        ensures
            result is Ok <==> sought(found) is Ok,
            result is Err ==> result == Err::<Opening, (Error, Decoder)>(
                (Error::DecoderNotFound, self),
            ),
            result is Ok ==> {
                &&& result->Ok_0.decoder() == self
                &&& result->Ok_0.spec_codec() == found
                &&& result->Ok_0.spec_options()@.len() == 0
                &&& result->Ok_0.spec_expects() == Some(medium)
            },
    {
        match found {
            Some(codec) => {
                match self.open_as(codec) {
                    Ok(opening) => Ok(Opening { expects: Some(medium), ..opening }),
                    Err(error) => Err(error),
                }
            },
            None => Err((Error::DecoderNotFound, self)),
        }
    }

    /// Asks for a video decoder, given the codec `found` that the engine has
    /// for this context's codec id: refused where it has none, or one that
    /// cannot decode, and then the decoder comes back as it was; else to be
    /// opened with that codec, and to be of the video medium once open.
    pub fn video(self, found: Option<Codec>) -> (result: Result<Opening, (Error, Decoder)>)
        ensures
            result is Ok <==> sought(found) is Ok,
            result is Err ==> result == Err::<Opening, (Error, Decoder)>(
                (Error::DecoderNotFound, self),
            ),
            result is Ok ==> {
                &&& result->Ok_0.decoder() == self
                &&& result->Ok_0.spec_codec() == found
                &&& result->Ok_0.spec_options()@.len() == 0
                &&& result->Ok_0.spec_expects() == Some(media::Type::Video)
            },
    {
        self.lookup(found, media::Type::Video)
    }

    /// Asks for an audio decoder, given the codec `found` that the engine has
    /// for this context's codec id: refused where it has none, or one that
    /// cannot decode, and then the decoder comes back as it was; else to be
    /// opened with that codec, and to be of the audio medium once open.
    pub fn audio(self, found: Option<Codec>) -> (result: Result<Opening, (Error, Decoder)>)
        ensures
            result is Ok <==> sought(found) is Ok,
            result is Err ==> result == Err::<Opening, (Error, Decoder)>(
                (Error::DecoderNotFound, self),
            ),
            result is Ok ==> {
                &&& result->Ok_0.decoder() == self
                &&& result->Ok_0.spec_codec() == found
                &&& result->Ok_0.spec_options()@.len() == 0
                &&& result->Ok_0.spec_expects() == Some(media::Type::Audio)
            },
    {
        self.lookup(found, media::Type::Audio)
    }

    /// Asks for a subtitle decoder, given the codec `found` that the engine
    /// has for this context's codec id: refused where it has none, or one
    /// that cannot decode, and then the decoder comes back as it was; else to
    /// be opened with that codec, and to be of the subtitle medium once open.
    pub fn subtitle(self, found: Option<Codec>) -> (result: Result<Opening, (Error, Decoder)>)
        ensures
            result is Ok <==> sought(found) is Ok,
            result is Err ==> result == Err::<Opening, (Error, Decoder)>(
                (Error::DecoderNotFound, self),
            ),
            result is Ok ==> {
                &&& result->Ok_0.decoder() == self
                &&& result->Ok_0.spec_codec() == found
                &&& result->Ok_0.spec_options()@.len() == 0
                &&& result->Ok_0.spec_expects() == Some(media::Type::Subtitle)
            },
    {
        self.lookup(found, media::Type::Subtitle)
    }

    /// Sets the methods of error concealment.
    pub fn conceal(&mut self, value: Conceal)
        ensures
            final(self).0@ == (Block { error_concealment: value.0, ..old(self).0@ }),
            final(self).0.handle() == old(self).0.handle(),
    {
        let mut block = self.0.block();
        block.error_concealment = value.bits();
        self.0.refresh(block);
    }

    /// Sets the checks made on the input.
    pub fn check(&mut self, value: Check)
        ensures
            final(self).0@ == (Block { err_recognition: value.0, ..old(self).0@ }),
            final(self).0.handle() == old(self).0.handle(),
    {
        let mut block = self.0.block();
        block.err_recognition = value.bits();
        self.0.refresh(block);
    }

    /// Says for which frames the loop filter is skipped.
    pub fn skip_loop_filter(&mut self, value: Discard)
        ensures
            final(self).0@ == (Block { skip_loop_filter: value, ..old(self).0@ }),
            final(self).0.handle() == old(self).0.handle(),
    {
        let mut block = self.0.block();
        block.skip_loop_filter = value;
        self.0.refresh(block);
    }

    /// Says for which frames the inverse transform is skipped.
    pub fn skip_idct(&mut self, value: Discard)
        ensures
            final(self).0@ == (Block { skip_idct: value, ..old(self).0@ }),
            final(self).0.handle() == old(self).0.handle(),
    {
        let mut block = self.0.block();
        block.skip_idct = value;
        self.0.refresh(block);
    }

    /// Says which frames are not decoded at all.
    pub fn skip_frame(&mut self, value: Discard)
        ensures
            final(self).0@ == (Block { skip_frame: value, ..old(self).0@ }),
            final(self).0.handle() == old(self).0.handle(),
    {
        let mut block = self.0.block();
        block.skip_frame = value;
        self.0.refresh(block);
    }

    /// The unit of the timestamps, in seconds.
    pub fn time_base(&self) -> (time_base: Rational)
        ensures
            time_base == self.0@.time_base,
    {
        self.0.block().time_base
    }

    /// The context underneath.
    pub fn as_ref(&self) -> (context: &Context)
        ensures
            *context == self.0,
    {
        &self.0
    }

    /// The context underneath, for changing it.
    pub fn as_mut(&mut self) -> (context: &mut Context)
        ensures
            *context == old(self).0,
            final(self).0 == *final(context),
    {
        &mut self.0
    }
}

/// An opening concludes in an opened decoder exactly when the engine's code
/// is not negative and the medium asked for, if any, is the context's. Either
/// way the decoder that went in comes out: opened in the result, opened in a
/// mismatch, or unopened with the engine's error.
pub proof fn lemma_concluded(opening: Opening, code: i32, result: Result<Opened, Failed>)
    requires
        opening.concludes(code, result),
    ensures
        result is Ok <==> code >= 0 && (opening.spec_expects() is None || opening.spec_expects()
            == Some(opening.decoder().0@.medium)),
        result matches Ok(opened) ==> opened.decoder() == opening.decoder(),
        result matches Err(Failed::Unopened(error, decoder)) ==> code < 0 && error == translate(
            code,
        ) && decoder == opening.decoder(),
        result matches Err(Failed::Mismatched(opened)) ==> code >= 0 && opened.decoder()
            == opening.decoder(),
        result matches Err(failed) ==> failed.spec_error() == (if code < 0 {
            translate(code)
        } else {
            Error::InvalidData
        }),
{
}

} // verus!
