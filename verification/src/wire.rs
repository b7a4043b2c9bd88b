//! Jupyter messages on the wire: frames and their signature.
//!
//! A message travels as a list of frames: routing identities, the delimiter
//! `<IDS|MSG>`, the signature, then header, parent header, metadata and
//! content as JSON, then any binary buffers. The signature is the lowercase
//! hex of the HMAC-SHA256 of the four JSON frames under the connection key;
//! with an empty key nothing is signed and nothing is checked.

use vstd::prelude::*;

verus! {

/// The most bytes that a key or the signed frames of a message may hold.
pub const MAX_SIGNED_LEN: u64 = 0x1000_0000_0000_0000;

/// The frames of one message, apart from delimiter and signature.
#[derive(Clone, Debug, PartialEq, Eq)]
pub struct WireMessage {
    pub identities: Vec<Vec<u8>>,
    pub header: Vec<u8>,
    pub parent_header: Vec<u8>,
    pub metadata: Vec<u8>,
    pub content: Vec<u8>,
    pub buffers: Vec<Vec<u8>>,
}

/// What a [`WireMessage`] stands for.
pub struct WireView {
    pub identities: Seq<Seq<u8>>,
    pub header: Seq<u8>,
    pub parent_header: Seq<u8>,
    pub metadata: Seq<u8>,
    pub content: Seq<u8>,
    pub buffers: Seq<Seq<u8>>,
}

/// Why frames cannot be made or taken apart.
#[derive(Clone, Copy, Debug, PartialEq, Eq, Structural)]
pub enum WireError {
    /// No frame is the delimiter.
    MissingDelimiter,
    /// No frame follows the delimiter.
    MissingSignature,
    /// Fewer than four frames follow the signature.
    InsufficientParts,
    /// The key or the frames to sign are longer than can be signed.
    TooLong,
    /// The signature is not that of the frames under the key.
    SignatureMismatch,
}

/// The bytes of each of `frames`.
pub open spec fn frames_view(frames: Seq<Vec<u8>>) -> Seq<Seq<u8>> {
    Seq::new(frames.len(), |i: int| frames[i]@)
}

impl View for WireMessage {
    type V = WireView;

    open spec fn view(&self) -> WireView {
        WireView {
            identities: frames_view(self.identities@),
            header: self.header@,
            parent_header: self.parent_header@,
            metadata: self.metadata@,
            content: self.content@,
            buffers: frames_view(self.buffers@),
        }
    }
}

/// The HMAC-SHA256 of `data` under `key`.
pub uninterp spec fn hmac_sha256(key: Seq<u8>, data: Seq<u8>) -> Seq<u8>;

/// Computes an HMAC with `ring::hmac::sign` under a key that
/// `ring::hmac::Key::new` makes for `HMAC_SHA256`. The result depends on key
/// and data alone; it is named `hmac_sha256` and not described further.
/// Neither call fails on inputs of at most `MAX_SIGNED_LEN` bytes.
#[verifier::external_body]
fn hmac_tag(key: &Vec<u8>, data: &Vec<u8>) -> (tag: Vec<u8>)
    requires
        key.len() <= MAX_SIGNED_LEN,
        data.len() <= MAX_SIGNED_LEN,
    ensures
        tag@ == hmac_sha256(key@, data@),
{
    ring::hmac::sign(&ring::hmac::Key::new(ring::hmac::HMAC_SHA256, key), data).as_ref().to_vec()
}

/// The delimiter frame, `<IDS|MSG>`.
pub open spec fn delimiter() -> Seq<u8> {
    seq![60u8, 73u8, 68u8, 83u8, 124u8, 77u8, 83u8, 71u8, 62u8]
}

/// The ASCII code of the lowercase hex digit for `n`, for `n` below 16.
pub open spec fn hex_digit(n: int) -> u8 {
    if n < 10 {
        (48 + n) as u8
    } else {
        (87 + n) as u8
    }
}

/// The lowercase hex text of `bytes`, two digits for each byte.
pub open spec fn hex_lower(bytes: Seq<u8>) -> Seq<u8>
    decreases bytes.len(),
{
    if bytes.len() == 0 {
        Seq::empty()
    } else {
        hex_lower(bytes.drop_last()).push(hex_digit(bytes.last() as int / 16)).push(
            hex_digit(bytes.last() as int % 16),
        )
    }
}

/// The bytes that the signature covers: header, parent header, metadata and
/// content, one after the other.
pub open spec fn signed_bytes(message: WireView) -> Seq<u8> {
    message.header + message.parent_header + message.metadata + message.content
}

/// Whether key and message are short enough to be signed.
pub open spec fn signable(key: Seq<u8>, message: WireView) -> bool {
    key.len() <= MAX_SIGNED_LEN && signed_bytes(message).len() <= MAX_SIGNED_LEN
}

/// The signature frame of a message under `key`: empty for the empty key,
/// else the lowercase hex of the HMAC-SHA256 of the signed bytes.
pub open spec fn signature_of(key: Seq<u8>, message: WireView) -> Seq<u8> {
    if key.len() == 0 {
        Seq::empty()
    } else {
        hex_lower(hmac_sha256(key, signed_bytes(message)))
    }
}

/// The frames of a message under `key`, in wire order.
pub open spec fn framed(key: Seq<u8>, message: WireView) -> Seq<Seq<u8>> {
    message.identities + seq![
        delimiter(),
        signature_of(key, message),
        message.header,
        message.parent_header,
        message.metadata,
        message.content,
    ] + message.buffers
}

/// What framing a message under `key` gives: its frames, or `TooLong` where
/// a key is given and key or message cannot be signed.
pub open spec fn frame_result(key: Seq<u8>, message: WireView) -> Result<Seq<Seq<u8>>, WireError> {
    if key.len() > 0 && !signable(key, message) {
        Err(WireError::TooLong)
    } else {
        Ok(framed(key, message))
    }
}

/// The index of the first of `frames` that is the delimiter.
pub open spec fn delimiter_index(frames: Seq<Seq<u8>>) -> Option<int>
    decreases frames.len(),
{
    if frames.len() == 0 {
        None
    } else if frames[0] == delimiter() {
        Some(0int)
    } else {
        match delimiter_index(frames.drop_first()) {
            Some(i) => Some(i + 1),
            None => None,
        }
    }
}

/// The message that frames hold when the delimiter stands at index `at`.
pub open spec fn message_at(frames: Seq<Seq<u8>>, at: int) -> WireView {
    WireView {
        identities: frames.subrange(0, at),
        header: frames[at + 2],
        parent_header: frames[at + 3],
        metadata: frames[at + 4],
        content: frames[at + 5],
        buffers: frames.subrange(at + 6, frames.len() as int),
    }
}

/// What taking frames apart under `key` gives: the message behind the first
/// delimiter, where a signature and four frames follow it and, with a key,
/// the signature is that of the four frames under the key.
pub open spec fn unframed(key: Seq<u8>, frames: Seq<Seq<u8>>) -> Result<WireView, WireError> {
    match delimiter_index(frames) {
        None => Err(WireError::MissingDelimiter),
        Some(at) => {
            let message = message_at(frames, at);
            if at + 1 >= frames.len() {
                Err(WireError::MissingSignature)
            } else if frames.len() < at + 6 {
                Err(WireError::InsufficientParts)
            } else if key.len() == 0 {
                Ok(message)
            } else if !signable(key, message) {
                Err(WireError::TooLong)
            } else if frames[at + 1] != signature_of(key, message) {
                Err(WireError::SignatureMismatch)
            } else {
                Ok(message)
            }
        },
    }
}

/// What a result of framing stands for.
pub open spec fn frames_result_view(result: Result<Vec<Vec<u8>>, WireError>) -> Result<
    Seq<Seq<u8>>,
    WireError,
> {
    match result {
        Ok(frames) => Ok(frames_view(frames@)),
        Err(e) => Err(e),
    }
}

/// What a result of taking frames apart stands for.
pub open spec fn message_result_view(result: Result<WireMessage, WireError>) -> Result<
    WireView,
    WireError,
> {
    match result {
        Ok(message) => Ok(message@),
        Err(e) => Err(e),
    }
}

/// The delimiter frame.
pub fn delimiter_frame() -> (frame: Vec<u8>)
    ensures
        frame@ == delimiter(),
{
    let frame: Vec<u8> = vec![60u8, 73u8, 68u8, 83u8, 124u8, 77u8, 83u8, 71u8, 62u8];
    assert(frame@ =~= delimiter());
    frame
}

/// A copy of `bytes`.
pub fn copy_bytes(bytes: &Vec<u8>) -> (out: Vec<u8>)
    ensures
        out@ == bytes@,
{
    let mut out: Vec<u8> = Vec::new();
    out.extend_from_slice(bytes.as_slice());
    assert(out@ =~= bytes@);
    out
}

/// Whether two frames hold the same bytes. Frames of one length are compared
/// to their end, wherever they first differ.
pub fn same_bytes(a: &Vec<u8>, b: &Vec<u8>) -> (same: bool)
    ensures
        same == (a@ == b@),
{
    if a.len() != b.len() {
        return false;
    }
    let mut differs = false;
    let mut i: usize = 0;
    assert(a@.subrange(0, 0) =~= b@.subrange(0, 0));
    while i < a.len()
        invariant
            a.len() == b.len(),
            i <= a.len(),
            differs == (a@.subrange(0, i as int) != b@.subrange(0, i as int)),
        decreases a.len() - i,
    {
        let ghost before_a = a@.subrange(0, i as int);
        let ghost before_b = b@.subrange(0, i as int);
        if a[i] != b[i] {
            differs = true;
        }
        i = i + 1;
        proof {
            let after_a = a@.subrange(0, i as int);
            let after_b = b@.subrange(0, i as int);
            assert(after_a.drop_last() =~= before_a);
            assert(after_b.drop_last() =~= before_b);
            if before_a == before_b && a@[i - 1] == b@[i - 1] {
                assert(after_a =~= after_b);
            }
            if after_a == after_b {
                assert(after_a[i - 1] == after_b[i - 1]);
            }
        }
    }
    assert(a@.subrange(0, a@.len() as int) =~= a@);
    assert(b@.subrange(0, b@.len() as int) =~= b@);
    !differs
}

fn hex_digit_of(n: u8) -> (digit: u8)
    requires
        n < 16,
    ensures
        digit == hex_digit(n as int),
{
    if n < 10 {
        48 + n
    } else {
        87 + n
    }
}

/// Writes `bytes` as lowercase hex.
pub fn hex_encode(bytes: &Vec<u8>) -> (text: Vec<u8>)
    ensures
        text@ == hex_lower(bytes@),
{
    let mut text: Vec<u8> = Vec::new();
    let mut i: usize = 0;
    while i < bytes.len()
        invariant
            i <= bytes.len(),
            text@ == hex_lower(bytes@.subrange(0, i as int)),
        decreases bytes.len() - i,
    {
        let byte = bytes[i];
        text.push(hex_digit_of(byte / 16));
        text.push(hex_digit_of(byte % 16));
        i = i + 1;
        assert(bytes@.subrange(0, i as int).drop_last() =~= bytes@.subrange(0, i - 1));
    }
    assert(bytes@.subrange(0, bytes@.len() as int) =~= bytes@);
    text
}

/// Whether key and message are short enough to be signed.
fn can_sign(key: &Vec<u8>, message: &WireMessage) -> (yes: bool)
    ensures
        yes == signable(key@, message@),
{
    let max = MAX_SIGNED_LEN;
    if key.len() as u64 > max {
        return false;
    }
    let mut total: u64 = 0;
    if message.header.len() as u64 > max - total {
        return false;
    }
    total = total + message.header.len() as u64;
    if message.parent_header.len() as u64 > max - total {
        return false;
    }
    total = total + message.parent_header.len() as u64;
    if message.metadata.len() as u64 > max - total {
        return false;
    }
    total = total + message.metadata.len() as u64;
    if message.content.len() as u64 > max - total {
        return false;
    }
    true
}

/// Computes the signature frame of a message that can be signed.
fn sign(key: &Vec<u8>, message: &WireMessage) -> (signature: Vec<u8>)
    requires
        key@.len() > 0 ==> signable(key@, message@),
    ensures
        signature@ == signature_of(key@, message@),
{
    if key.len() == 0 {
        return Vec::new();
    }
    let mut data: Vec<u8> = Vec::new();
    data.extend_from_slice(message.header.as_slice());
    data.extend_from_slice(message.parent_header.as_slice());
    data.extend_from_slice(message.metadata.as_slice());
    data.extend_from_slice(message.content.as_slice());
    assert(data@ =~= signed_bytes(message@));
    let tag = hmac_tag(key, &data);
    hex_encode(&tag)
}

/// Lays a message out as frames and signs it under `key`.
pub fn frame_message(key: &Vec<u8>, message: &WireMessage) -> (result: Result<
    Vec<Vec<u8>>,
    WireError,
>)
    ensures
        frames_result_view(result) == frame_result(key@, message@),
{
    if key.len() > 0 && !can_sign(key, message) {
        return Err(WireError::TooLong);
    }
    let mut frames: Vec<Vec<u8>> = Vec::new();
    let mut i: usize = 0;
    while i < message.identities.len()
        invariant
            i <= message.identities.len(),
            frames.len() == i,
            forall|k: int| 0 <= k < i ==> (#[trigger] frames[k])@ == message.identities[k]@,
        decreases message.identities.len() - i,
    {
        frames.push(copy_bytes(&message.identities[i]));
        i = i + 1;
    }
    frames.push(delimiter_frame());
    frames.push(sign(key, message));
    frames.push(copy_bytes(&message.header));
    frames.push(copy_bytes(&message.parent_header));
    frames.push(copy_bytes(&message.metadata));
    frames.push(copy_bytes(&message.content));
    let ghost head = message@.identities + seq![
        delimiter(),
        signature_of(key@, message@),
        message@.header,
        message@.parent_header,
        message@.metadata,
        message@.content,
    ];
    assert(frames_view(frames@) =~= head);
    let ghost n = frames.len();
    let mut j: usize = 0;
    while j < message.buffers.len()
        invariant
            j <= message.buffers.len(),
            frames.len() == n + j,
            n == head.len(),
            forall|k: int| 0 <= k < n ==> (#[trigger] frames[k])@ == head[k],
            forall|k: int| 0 <= k < j ==> (#[trigger] frames[n + k])@ == message.buffers[k]@,
        decreases message.buffers.len() - j,
    {
        frames.push(copy_bytes(&message.buffers[j]));
        j = j + 1;
    }
    assert forall|k: int| 0 <= k < frames.len() implies frames_view(frames@)[k] == framed(
        key@,
        message@,
    )[k] by {
        if k >= n {
            assert(frames[n + (k - n)]@ == message.buffers[k - n]@);
        }
    }
    assert(frames_view(frames@) =~= framed(key@, message@));
    Ok(frames)
}

/// `delimiter_index` names a delimiter frame before which no frame is one.
pub proof fn lemma_delimiter_index(frames: Seq<Seq<u8>>)
    ensures
        match delimiter_index(frames) {
            Some(at) => {
                &&& 0 <= at < frames.len()
                &&& frames[at] == delimiter()
                &&& forall|k: int| 0 <= k < at ==> #[trigger] frames[k] != delimiter()
            },
            None => forall|k: int| 0 <= k < frames.len() ==> #[trigger] frames[k] != delimiter(),
        },
    decreases frames.len(),
{
    if frames.len() > 0 && frames[0] != delimiter() {
        let rest = frames.drop_first();
        lemma_delimiter_index(rest);
        match delimiter_index(rest) {
            Some(at) => {
                assert forall|k: int| 0 <= k < at + 1 implies #[trigger] frames[k]
                    != delimiter() by {
                    if k > 0 {
                        assert(rest[k - 1] == frames[k]);
                    }
                }
            },
            None => {
                assert forall|k: int| 0 <= k < frames.len() implies #[trigger] frames[k]
                    != delimiter() by {
                    if k > 0 {
                        assert(rest[k - 1] == frames[k]);
                    }
                }
            },
        }
    }
}

/// Where the frame at `at` is the delimiter and no frame before it is,
/// `delimiter_index` is `at`.
pub proof fn lemma_delimiter_index_is(frames: Seq<Seq<u8>>, at: int)
    requires
        0 <= at < frames.len(),
        frames[at] == delimiter(),
        forall|k: int| 0 <= k < at ==> #[trigger] frames[k] != delimiter(),
    ensures
        delimiter_index(frames) == Some(at),
    decreases at,
{
    if at > 0 {
        let rest = frames.drop_first();
        assert(frames[0] != delimiter());
        assert forall|k: int| 0 <= k < at - 1 implies #[trigger] rest[k] != delimiter() by {
            assert(rest[k] == frames[k + 1]);
        }
        lemma_delimiter_index_is(rest, at - 1);
    }
}

/// Where no frame is the delimiter, `delimiter_index` finds none.
pub proof fn lemma_delimiter_index_none(frames: Seq<Seq<u8>>)
    requires
        forall|k: int| 0 <= k < frames.len() ==> #[trigger] frames[k] != delimiter(),
    ensures
        delimiter_index(frames) is None,
    decreases frames.len(),
{
    if frames.len() > 0 {
        let rest = frames.drop_first();
        assert(frames[0] != delimiter());
        assert forall|k: int| 0 <= k < rest.len() implies #[trigger] rest[k] != delimiter() by {
            assert(rest[k] == frames[k + 1]);
        }
        lemma_delimiter_index_none(rest);
    }
}

fn find_delimiter(frames: &Vec<Vec<u8>>) -> (at: Option<usize>)
    ensures
        match at {
            Some(i) => delimiter_index(frames_view(frames@)) == Some(i as int),
            None => delimiter_index(frames_view(frames@)) is None,
        },
{
    let delimiter = delimiter_frame();
    let mut i: usize = 0;
    while i < frames.len()
        invariant
            i <= frames.len(),
            delimiter@ == self::delimiter(),
            forall|k: int| 0 <= k < i ==> #[trigger] frames_view(frames@)[k] != self::delimiter(),
        decreases frames.len() - i,
    {
        if same_bytes(&frames[i], &delimiter) {
            proof {
                lemma_delimiter_index_is(frames_view(frames@), i as int);
            }
            return Some(i);
        }
        i = i + 1;
    }
    proof {
        lemma_delimiter_index_none(frames_view(frames@));
    }
    None
}

fn copy_frames(frames: &Vec<Vec<u8>>, from: usize, to: usize) -> (out: Vec<Vec<u8>>)
    requires
        from <= to <= frames.len(),
    ensures
        frames_view(out@) == frames_view(frames@).subrange(from as int, to as int),
{
    let mut out: Vec<Vec<u8>> = Vec::new();
    let mut i: usize = from;
    while i < to
        invariant
            from <= i <= to <= frames.len(),
            out.len() == i - from,
            forall|k: int| 0 <= k < i - from ==> (#[trigger] out[k])@ == frames[from + k]@,
        decreases to - i,
    {
        out.push(copy_bytes(&frames[i]));
        i = i + 1;
    }
    assert(frames_view(out@) =~= frames_view(frames@).subrange(from as int, to as int));
    out
}

/// Takes frames apart and checks their signature under `key`.
pub fn unframe_message(key: &Vec<u8>, frames: &Vec<Vec<u8>>) -> (result: Result<
    WireMessage,
    WireError,
>)
    ensures
        message_result_view(result) == unframed(key@, frames_view(frames@)),
{
    let at = match find_delimiter(frames) {
        Some(at) => at,
        None => {
            return Err(WireError::MissingDelimiter);
        },
    };
    proof {
        lemma_delimiter_index(frames_view(frames@));
    }
    let n = frames.len();
    if n - at < 2 {
        return Err(WireError::MissingSignature);
    }
    if n - at < 6 {
        return Err(WireError::InsufficientParts);
    }
    let message = WireMessage {
        identities: copy_frames(frames, 0, at),
        header: copy_bytes(&frames[at + 2]),
        parent_header: copy_bytes(&frames[at + 3]),
        metadata: copy_bytes(&frames[at + 4]),
        content: copy_bytes(&frames[at + 5]),
        buffers: copy_frames(frames, at + 6, n),
    };
    assert(message@ == message_at(frames_view(frames@), at as int));
    if key.len() == 0 {
        return Ok(message);
    }
    if !can_sign(key, &message) {
        return Err(WireError::TooLong);
    }
    let expected = sign(key, &message);
    if !same_bytes(&frames[at + 1], &expected) {
        return Err(WireError::SignatureMismatch);
    }
    Ok(message)
}

/// Every framed message carries its signature: behind the identities comes
/// the delimiter, then the signature frame, which under a key is the
/// lowercase hex of the HMAC-SHA256 of header, parent header, metadata and
/// content, the four frames that follow it, and which is empty without a
/// key.
pub proof fn lemma_frame_is_signed(key: Seq<u8>, message: WireView)
    ensures
        ({
            let frames = framed(key, message);
            let at = message.identities.len() as int;
            &&& frames.len() == at + 6 + message.buffers.len()
            &&& frames[at] == delimiter()
            &&& frames[at + 2] == message.header
            &&& frames[at + 3] == message.parent_header
            &&& frames[at + 4] == message.metadata
            &&& frames[at + 5] == message.content
            &&& key.len() > 0 ==> frames[at + 1] == hex_lower(
                hmac_sha256(key, frames[at + 2] + frames[at + 3] + frames[at + 4] + frames[at + 5]),
            )
            &&& key.len() == 0 ==> frames[at + 1] == Seq::<u8>::empty()
        }),
{
}

/// What is signed under a key is accepted under the same key: the frames of
/// a message that can be signed, none of whose identities is the delimiter,
/// are taken apart into the same message.
pub proof fn lemma_round_trip(key: Seq<u8>, message: WireView)
    requires
        key.len() > 0 ==> signable(key, message),
        forall|k: int| 0 <= k < message.identities.len() ==> #[trigger] message.identities[k]
            != delimiter(),
    ensures
        unframed(key, framed(key, message)) == Ok::<WireView, WireError>(message),
{
    let frames = framed(key, message);
    let at = message.identities.len() as int;
    lemma_frame_is_signed(key, message);
    assert forall|k: int| 0 <= k < at implies #[trigger] frames[k] != delimiter() by {
        assert(frames[k] == message.identities[k]);
    }
    lemma_delimiter_index_is(frames, at);
    let back = message_at(frames, at);
    assert(back.identities =~= message.identities);
    assert(back.buffers =~= message.buffers);
}

/// Nothing else is accepted: frames that are taken apart under a key carry,
/// behind their first delimiter, the signature of exactly the four frames
/// that follow it under that key. Frames whose signature frame or signed
/// frames were changed are accepted only if the signature frame is still
/// the one that the key gives for the frames as they now are.
pub proof fn lemma_accepted_is_signed(key: Seq<u8>, frames: Seq<Seq<u8>>)
    requires
        key.len() > 0,
    ensures
        unframed(key, frames) matches Ok(message) ==> {
            let at = delimiter_index(frames)->0;
            &&& frames[at] == delimiter()
            &&& message == message_at(frames, at)
            &&& frames[at + 1] == hex_lower(
                hmac_sha256(key, frames[at + 2] + frames[at + 3] + frames[at + 4] + frames[at + 5]),
            )
        },
        delimiter_index(frames) matches Some(at) ==> (at + 6 <= frames.len() && signable(
            key,
            message_at(frames, at),
        ) && frames[at + 1] != signature_of(key, message_at(frames, at)) ==> unframed(key, frames)
            == Err::<WireView, WireError>(WireError::SignatureMismatch)),
{
    lemma_delimiter_index(frames);
}

} // verus!
