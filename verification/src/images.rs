//! Generated images and the decoding of what a backend sends for them.

use crate::errors::{DecodeCause, DecodeCauseView, Fault, FaultView};
use crate::text::{copy_optional_text, strip_leading, trim_leading};
use base64::prelude::{Engine, BASE64_STANDARD};
use base64::DecodeError;
use vstd::prelude::*;

verus! {

/// The scheme prefix that the queued backend puts before the base64 text of an image.
pub const DATA_URI_PREFIX: &'static str = "data:image/png;base64,";

/// How an image came to be.
#[derive(Debug, PartialEq)]
pub struct LvmImageMetadata {
    /// The generation parameters that were used, in serialized form.
    pub generation_params: Option<String>,
}

/// What an [`LvmImageMetadata`] holds.
pub struct LvmImageMetadataView {
    pub generation_params: Option<Seq<char>>,
}

impl View for LvmImageMetadata {
    type V = LvmImageMetadataView;

    open spec fn view(&self) -> LvmImageMetadataView {
        LvmImageMetadataView { generation_params: self.generation_params.deep_view() }
    }
}

impl DeepView for LvmImageMetadata {
    type V = LvmImageMetadataView;

    open spec fn deep_view(&self) -> LvmImageMetadataView {
        self@
    }
}

impl Clone for LvmImageMetadata {
    fn clone(&self) -> (r: Self)
        ensures
            r@ == self@,
    {
        LvmImageMetadata { generation_params: copy_optional_text(&self.generation_params) }
    }
}

/// One generated image.
#[derive(Debug, PartialEq)]
pub struct LvmImage {
    /// The raw binary payload.
    pub data: Vec<u8>,
    pub metadata: Option<LvmImageMetadata>,
}

/// What an [`LvmImage`] holds.
pub struct LvmImageView {
    pub data: Seq<u8>,
    pub metadata: Option<LvmImageMetadataView>,
}

impl View for LvmImage {
    type V = LvmImageView;

    open spec fn view(&self) -> LvmImageView {
        LvmImageView { data: self.data@, metadata: self.metadata.deep_view() }
    }
}

impl DeepView for LvmImage {
    type V = LvmImageView;

    open spec fn deep_view(&self) -> LvmImageView {
        self@
    }
}

impl Clone for LvmImage {
    fn clone(&self) -> (r: Self)
        ensures
            r@ == self@,
    {
        let metadata = match &self.metadata {
            Some(m) => Some(m.clone()),
            None => None,
        };
        LvmImage { data: self.data.clone(), metadata }
    }
}

/// Why a text is not base64 in the standard alphabet with canonical padding.
#[derive(Debug, Clone, Copy, PartialEq, Eq, Structural)]
pub enum Base64Fault {
    /// A byte outside the alphabet, or padding before the end, at this offset.
    InvalidByte { offset: usize, byte: u8 },
    /// The number of symbols cannot be that of an encoding.
    InvalidLength { length: usize },
    /// The last symbol holds bits that no encoding would set.
    InvalidLastSymbol { offset: usize, byte: u8 },
    /// The padding is absent or not canonical.
    InvalidPadding,
}

/// What decoding `text` as base64, in the standard alphabet with padding, gives.
pub uninterp spec fn base64_decoded(text: Seq<char>) -> Result<Seq<u8>, Base64Fault>;

/// What a decoding attempt returned, with the bytes as a sequence.
pub open spec fn decoding_view(r: Result<Vec<u8>, Base64Fault>) -> Result<Seq<u8>, Base64Fault> {
    match r {
        Ok(bytes) => Ok(bytes@),
        Err(fault) => Err(fault),
    }
}

/// The payload that the text sent for an image stands for: the scheme prefix is taken off,
/// as often as it leads the text, and the rest is decoded as base64.
pub open spec fn image_payload(image: Seq<char>) -> Result<Seq<u8>, Base64Fault> {
    base64_decoded(strip_leading(image, DATA_URI_PREFIX@))
}

/// Whether a character is a symbol of base64 texts in the standard alphabet: a letter, a
/// digit, `+`, `/` or the padding `=`.
pub open spec fn is_base64_symbol(c: char) -> bool {
    'A' <= c <= 'Z' || 'a' <= c <= 'z' || '0' <= c <= '9' || c == '+' || c == '/' || c == '='
}

/// A text of base64 symbols does not begin with the scheme prefix.
pub proof fn lemma_base64_text_has_no_prefix(encoded: Seq<char>)
    requires
        forall|i: int| 0 <= i < encoded.len() ==> is_base64_symbol(#[trigger] encoded[i]),
    ensures
        !DATA_URI_PREFIX@.is_prefix_of(encoded),
{
    reveal_strlit("data:image/png;base64,");
    if DATA_URI_PREFIX@.is_prefix_of(encoded) {
        assert(encoded.subrange(0, DATA_URI_PREFIX@.len() as int)[4] == DATA_URI_PREFIX@[4]);
    }
}

/// Decoding is a round trip: where `encoded` is a base64 text that stands for `payload`,
/// both the text itself and the text behind the scheme prefix decode to `payload`.
pub proof fn lemma_data_uri_round_trip(payload: Seq<u8>, encoded: Seq<char>)
    requires
        base64_decoded(encoded) == Ok::<Seq<u8>, Base64Fault>(payload),
        !DATA_URI_PREFIX@.is_prefix_of(encoded),
    ensures
        image_payload(encoded) == Ok::<Seq<u8>, Base64Fault>(payload),
        image_payload(DATA_URI_PREFIX@ + encoded) == Ok::<Seq<u8>, Base64Fault>(payload),
{
    reveal_strlit("data:image/png;base64,");
    let prefix = DATA_URI_PREFIX@;
    let whole = prefix + encoded;
    assert(whole.skip(prefix.len() as int) =~= encoded);
}

/// Calls `Engine::decode` of the `base64` crate on `BASE64_STANDARD`, its engine for the
/// standard alphabet with padding. The contract does not say which bytes come back: it
/// names what the call returns, and so claims that the result depends on the text alone.
/// An error of the crate is handed on variant by variant.
#[verifier::external_body]
fn base64_decode(text: &str) -> (r: Result<Vec<u8>, Base64Fault>)
    ensures
        decoding_view(r) == base64_decoded(text@),
{
    match BASE64_STANDARD.decode(text) {
        Ok(bytes) => Ok(bytes),
        Err(DecodeError::InvalidByte(offset, byte)) => Err(
            Base64Fault::InvalidByte { offset, byte },
        ),
        Err(DecodeError::InvalidLength(length)) => Err(Base64Fault::InvalidLength { length }),
        Err(DecodeError::InvalidLastSymbol(offset, byte)) => Err(
            Base64Fault::InvalidLastSymbol { offset, byte },
        ),
        Err(DecodeError::InvalidPadding) => Err(Base64Fault::InvalidPadding),
    }
}

/// Decode a base64-encoded image as the queued backend sends it.
pub fn decode_image(image: &str) -> (r: Result<Vec<u8>, Base64Fault>)
    ensures
        decoding_view(r) == image_payload(image@),
{
    let encoded = trim_leading(image, DATA_URI_PREFIX);
    base64_decode(encoded)
}

/// Each payload as a sequence of bytes.
pub open spec fn payloads_view(payloads: Seq<Vec<u8>>) -> Seq<Seq<u8>> {
    Seq::new(payloads.len(), |i: int| payloads[i]@)
}

/// What the decoding of each image of one job returned, in the order of the images.
pub open spec fn decodings_view(decoded: Seq<Result<Vec<u8>, Base64Fault>>) -> Seq<
    Result<Seq<u8>, Base64Fault>,
> {
    Seq::new(decoded.len(), |i: int| decoding_view(decoded[i]))
}

/// The payloads of one job, given what the decoding of each of its images returned: all of
/// them in their order, or the failure of the first image that could not be decoded, with
/// its place among the images.
pub open spec fn gathered_payloads(decoded: Seq<Result<Seq<u8>, Base64Fault>>) -> Result<
    Seq<Seq<u8>>,
    FaultView,
>
    decreases decoded.len(),
{
    if decoded.len() == 0 {
        Ok(Seq::empty())
    } else {
        match gathered_payloads(decoded.drop_last()) {
            Err(fault) => Err(fault),
            Ok(earlier) => match decoded.last() {
                Ok(payload) => Ok(earlier.push(payload)),
                Err(fault) => Err(
                    FaultView::Decode {
                        cause: DecodeCauseView::Image {
                            index: (decoded.len() - 1) as usize,
                            fault,
                        },
                    },
                ),
            },
        }
    }
}

/// The payloads that the texts sent for the images of one job stand for, in their order.
/// The first text that is no image makes the whole fail, with its place among the texts.
pub open spec fn image_payloads(images: Seq<Seq<char>>) -> Result<Seq<Seq<u8>>, FaultView> {
    gathered_payloads(Seq::new(images.len(), |i: int| image_payload(images[i])))
}

/// A failure among the first images is the failure of the whole.
pub proof fn lemma_first_failure_decides(decoded: Seq<Result<Seq<u8>, Base64Fault>>, i: int)
    requires
        0 <= i <= decoded.len(),
        gathered_payloads(decoded.take(i)) is Err,
    ensures
        gathered_payloads(decoded) == gathered_payloads(decoded.take(i)),
    decreases decoded.len() - i,
{
    if i < decoded.len() {
        assert(decoded.drop_last().take(i) =~= decoded.take(i));
        lemma_first_failure_decides(decoded.drop_last(), i);
    } else {
        assert(decoded.take(i) =~= decoded);
    }
}

/// Gathers the payloads of one job from what the decoding of each of its images returned.
/// Either every image was decoded, or the job has no usable results.
pub fn gather_payloads(decoded: Vec<Result<Vec<u8>, Base64Fault>>) -> (r: Result<
    Vec<Vec<u8>>,
    Fault,
>)
    ensures
        match r {
            Ok(payloads) => gathered_payloads(decodings_view(decoded@)) == Ok::<
                Seq<Seq<u8>>,
                FaultView,
            >(payloads_view(payloads@)),
            Err(fault) => gathered_payloads(decodings_view(decoded@)) == Err::<
                Seq<Seq<u8>>,
                FaultView,
            >(fault@),
        },
{
    let ghost all = decodings_view(decoded@);
    let ghost given = decoded@;
    let mut payloads: Vec<Vec<u8>> = Vec::new();
    assert(all.take(0) =~= Seq::empty());
    for item in it: decoded
        invariant
            it.seq() == given,
            all == decodings_view(given),
            payloads@.len() == it.index(),
            gathered_payloads(all.take(it.index() as int)) is Ok,
            gathered_payloads(all.take(it.index() as int))->Ok_0 =~= payloads_view(payloads@),
    {
        let ghost k = it.index() as int;
        assert(all.take(k + 1).drop_last() =~= all.take(k));
        match item {
            Ok(payload) => {
                payloads.push(payload);
            },
            Err(fault) => {
                proof {
                    lemma_first_failure_decides(all, k + 1);
                }
                return Err(
                    Fault::Decode { cause: DecodeCause::Image { index: payloads.len(), fault } },
                );
            },
        }
    }
    assert(all.take(given.len() as int) =~= all);
    Ok(payloads)
}

/// Decodes the images of one job as the queued backend sends them. Either every text is an
/// image, or the job has no usable results.
pub fn decode_images(images: &Vec<String>) -> (r: Result<Vec<Vec<u8>>, Fault>)
    ensures
        match r {
            Ok(payloads) => image_payloads(images.deep_view()) == Ok::<Seq<Seq<u8>>, FaultView>(
                payloads_view(payloads@),
            ),
            Err(fault) => image_payloads(images.deep_view()) == Err::<Seq<Seq<u8>>, FaultView>(
                fault@,
            ),
        },
{
    let ghost all = images.deep_view();
    let mut decoded: Vec<Result<Vec<u8>, Base64Fault>> = Vec::new();
    let mut i: usize = 0;
    while i < images.len()
        invariant
            all == images.deep_view(),
            i <= images.len(),
            decoded@.len() == i,
            forall|j: int| 0 <= j < i ==> decoding_view(#[trigger] decoded@[j]) == image_payload(all[j]),
        decreases images.len() - i,
    {
        decoded.push(decode_image(images[i].as_str()));
        i += 1;
    }
    assert(decodings_view(decoded@) =~= Seq::new(all.len(), |j: int| image_payload(all[j])));
    gather_payloads(decoded)
}

} // verus!
