//! The buffer-exchange protocol: the conventions used to move
//! variable-length text across the native boundary.
//!
//! Two read shapes exist. The fixed-capacity read hands the native side a
//! generously sized buffer and afterwards decodes it up to the first null
//! terminator or the declared size, whichever comes first. The two-phase
//! sized read first asks the native side for the required size, then
//! allocates exactly that plus one byte for the terminator, fills it, and
//! decodes the reported prefix up to the first null terminator, like the
//! fixed shape. In both shapes, bytes that are not valid
//! text are replaced rather than rejected: the native side's encoding
//! cannot be fully trusted, and diagnostics must always be produced.
//!
//! The symmetric write convention terminates outgoing text with a null
//! byte and refuses text that already contains one.

use vstd::prelude::*;
use vstd::string::StringExecFns;

use crate::errors::LoadError;

verus! {

/// The text that lossy UTF-8 decoding produces from the given bytes.
pub uninterp spec fn lossy_text_of(bytes: Seq<u8>) -> Seq<char>;

/// All bytes are plain ASCII.
pub open spec fn is_ascii_bytes(s: Seq<u8>) -> bool {
    forall|i: int| 0 <= i < s.len() ==> s[i] < 128
}

/// Relies on String::from_utf8_lossy: the decoded text is a function of
/// the bytes alone; valid UTF-8 (so in particular ASCII) passes through
/// unchanged, and invalid sequences are replaced, never rejected.
#[verifier::external_body]
fn lossy_decode(bytes: &Vec<u8>) -> (r: String)
    ensures
        r@ == lossy_text_of(bytes@),
        bytes@.len() == 0 ==> r@.len() == 0,
        is_ascii_bytes(bytes@) ==> r@.len() == bytes@.len() && (forall|i: int|
            0 <= i < bytes@.len() ==> r@[i] == bytes@[i] as char),
{
    String::from_utf8_lossy(bytes.as_slice()).into_owned()
}

/// The index of the first null byte, or the length if none occurs.
pub open spec fn first_nul(s: Seq<u8>) -> int
    decreases s.len(),
{
    if s.len() <= 0 {
        0
    } else if s[0] == 0 {
        0
    } else {
        1 + first_nul(s.drop_first())
    }
}

pub proof fn lemma_first_nul_at(s: Seq<u8>, k: int)
    requires
        0 <= k <= s.len(),
        forall|j: int| 0 <= j < k ==> s[j] != 0,
        k < s.len() ==> s[k] == 0,
    ensures
        first_nul(s) == k,
    decreases k,
{
    if s.len() > 0 && s[0] != 0 {
        let rest = s.drop_first();
        assert(forall|i: int| 0 <= i < rest.len() ==> rest[i] == s[i + 1]);
        lemma_first_nul_at(rest, k - 1);
    }
}

/// The first `n` bytes of `s`, or all of `s` if it is shorter.
pub open spec fn clip_to(s: Seq<u8>, n: int) -> Seq<u8> {
    if 0 <= n <= s.len() {
        s.take(n)
    } else if n < 0 {
        Seq::empty()
    } else {
        s
    }
}

/// What a fixed-capacity read decodes: the buffer up to the first null
/// terminator or the declared size, whichever is hit first.
pub open spec fn fixed_window(s: Seq<u8>, declared: int) -> Seq<u8> {
    let clipped = clip_to(s, declared);
    clipped.take(first_nul(clipped))
}

/// Decodes a buffer a native call filled under the fixed-capacity
/// convention: text runs to the first null terminator or to the declared
/// size, whichever comes first, and is decoded lossily.
pub fn decode_fixed_buffer(buf: &Vec<u8>, declared: usize) -> (s: String)
    ensures
        s@ == lossy_text_of(fixed_window(buf@, declared as int)),
        is_ascii_bytes(fixed_window(buf@, declared as int)) ==> s@.len() == fixed_window(
            buf@,
            declared as int,
        ).len() && (forall|i: int|
            0 <= i < s@.len() ==> s@[i] == fixed_window(buf@, declared as int)[i] as char),
{
    let end = if declared <= buf.len() {
        declared
    } else {
        buf.len()
    };
    let ghost clipped = clip_to(buf@, declared as int);
    proof {
        assert(clipped =~= buf@.take(end as int));
    }
    let mut k: usize = 0;
    while k < end && *vstd::slice::slice_index_get(buf.as_slice(), k) != 0
        invariant
            0 <= k <= end,
            end <= buf.len(),
            forall|j: int| 0 <= j < k ==> buf@[j] != 0,
        decreases end - k,
    {
        k += 1;
    }
    proof {
        lemma_first_nul_at(clipped, k as int);
    }
    let mut window: Vec<u8> = Vec::new();
    let mut i: usize = 0;
    while i < k
        invariant
            0 <= i <= k,
            k <= buf.len(),
            window@ =~= buf@.take(i as int),
        decreases k - i,
    {
        window.push(buf[i]);
        i += 1;
    }
    proof {
        assert(window@ =~= clipped.take(first_nul(clipped)));
    }
    lossy_decode(&window)
}

/// Decides the size-query phase of the two-phase read: a non-zero status
/// is the protocol's failure for this phase, and the fill phase is not
/// owed; a zero status yields the required payload size.
pub fn size_query_outcome(status: i32, required: usize) -> (r: Result<usize, LoadError>)
    ensures
        status == 0 ==> r == Ok::<usize, LoadError>(required),
        status != 0 ==> r == Err::<usize, LoadError>(LoadError::SizeQueryFailed(status)),
{
    if status == 0 {
        Ok(required)
    } else {
        Err(LoadError::SizeQueryFailed(status))
    }
}

/// Allocates the fill-phase buffer: exactly the required size plus one
/// byte for the terminator, zero-initialized.
pub fn make_fill_buffer(required: usize) -> (v: Vec<u8>)
    requires
        required < usize::MAX,
    ensures
        v@.len() == required + 1,
        forall|i: int| 0 <= i < v@.len() ==> v@[i] == 0,
{
    let mut v: Vec<u8> = Vec::new();
    let n = required + 1;
    let mut i: usize = 0;
    while i < n
        invariant
            i <= n,
            v@.len() == i,
            forall|j: int| 0 <= j < i ==> v@[j] == 0,
        decreases n - i,
    {
        v.push(0);
        i += 1;
    }
    v
}

/// Finishes the fill phase of the two-phase read: a non-zero status fails
/// the operation; on success the buffer is trimmed to the reported size
/// and decoded up to the first null terminator, lossily — the same rule
/// the fixed-capacity shape follows.
pub fn finish_fill(buf: &Vec<u8>, status: i32, reported: usize) -> (r: Result<String, LoadError>)
    ensures
        status != 0 ==> r == Err::<String, LoadError>(LoadError::FillFailed(status)),
        status == 0 ==> (r matches Ok(s) && {
            let payload = fixed_window(buf@, reported as int);
            &&& s@ == lossy_text_of(payload)
            &&& (is_ascii_bytes(payload) ==> s@.len() == payload.len() && (forall|i: int|
                0 <= i < s@.len() ==> s@[i] == payload[i] as char))
        }),
{
    if status != 0 {
        return Err(LoadError::FillFailed(status));
    }
    Ok(decode_fixed_buffer(buf, reported))
}

/// Allocates the buffer of a fixed-capacity read together with its
/// in/out size field: before the call, the field equals the capacity and
/// the buffer is zeroed.
pub fn make_fixed_buffer(capacity: usize) -> (r: (Vec<u8>, usize))
    ensures
        r.0@.len() == capacity,
        forall|i: int| 0 <= i < r.0@.len() ==> r.0@[i] == 0,
        r.1 == capacity,
{
    let mut v: Vec<u8> = Vec::new();
    let mut i: usize = 0;
    while i < capacity
        invariant
            i <= capacity,
            v@.len() == i,
            forall|j: int| 0 <= j < i ==> v@[j] == 0,
        decreases capacity - i,
    {
        v.push(0);
        i += 1;
    }
    (v, capacity)
}

/// Decides what a last-return retrieval reports: a zero status passes the
/// decoded message through as the result; any other status turns it into
/// the diagnostic line, with a fixed fallback when the message is empty.
pub fn last_return_outcome(status: i32, message: String) -> (r: Result<String, String>)
    ensures
        status == 0 ==> r == Ok::<String, String>(message),
        status != 0 && message@.len() == 0 ==> (r matches Err(m) && m@ == "last return message: "@
            + "the last return is empty"@),
        status != 0 && message@.len() > 0 ==> (r matches Err(m) && m@ == "last return message: "@
            + message@),
{
    if status == 0 {
        Ok(message)
    } else if message.as_str().is_empty() {
        Err(String::from_str("last return message: ").concat("the last return is empty"))
    } else {
        Err(String::from_str("last return message: ").concat(message.as_str()))
    }
}

/// Terminates outgoing text for the native side: a single null byte is
/// appended, and text that already contains one is refused, since it
/// could not survive the crossing intact.
pub fn encode_c_text(bytes: &Vec<u8>) -> (r: Option<Vec<u8>>)
    ensures
        bytes@.contains(0) ==> r is None,
        !bytes@.contains(0) ==> (r matches Some(v) && v@ == bytes@.push(0)),
{
    let n = bytes.len();
    let mut out: Vec<u8> = Vec::new();
    let mut i: usize = 0;
    while i < n
        invariant
            i <= n,
            n == bytes.len(),
            out@ =~= bytes@.take(i as int),
            forall|j: int| 0 <= j < i ==> bytes@[j] != 0,
        decreases n - i,
    {
        let b = bytes[i];
        if b == 0 {
            assert(bytes@[i as int] == 0);
            return None;
        }
        out.push(b);
        i += 1;
    }
    out.push(0);
    proof {
        assert(out@ =~= bytes@.push(0));
        if bytes@.contains(0) {
            let w = choose|j: int| 0 <= j < bytes@.len() && bytes@[j] == 0;
            assert(bytes@[w] != 0);
        }
    }
    Some(out)
}

/// Payload bytes that survive the round trip verbatim: plain ASCII with
/// no embedded null, so neither the terminator trim nor the lossy decode
/// can alter them.
pub open spec fn is_clean_text(s: Seq<u8>) -> bool {
    forall|i: int| 0 <= i < s.len() ==> 0 < #[trigger] s[i] < 128
}

/// The mathematical state of a native text source: the payload it
/// produces, the statuses its two phases report, and how often each phase
/// has been invoked.
pub struct NativeView {
    pub text: Seq<u8>,
    pub size_status: i32,
    pub fill_status: i32,
    pub size_calls: u64,
    pub fill_calls: u64,
}

impl NativeView {
    /// The state after one size-query call.
    pub open spec fn bump_size(&self) -> NativeView {
        NativeView { size_calls: crate::loader::sat_inc(self.size_calls), ..*self }
    }

    /// The state after one fill call.
    pub open spec fn bump_fill(&self) -> NativeView {
        NativeView { fill_calls: crate::loader::sat_inc(self.fill_calls), ..*self }
    }
}

/// An in-memory stand-in for a native call that produces text under the
/// two-phase convention: it reports its payload's size, then writes the
/// payload, with injectable failure statuses for either phase, counting
/// the calls made to each.
pub struct MemoryNative {
    text: Vec<u8>,
    size_status: i32,
    fill_status: i32,
    size_calls: u64,
    fill_calls: u64,
}

impl View for MemoryNative {
    type V = NativeView;

    closed spec fn view(&self) -> NativeView {
        NativeView {
            text: self.text@,
            size_status: self.size_status,
            fill_status: self.fill_status,
            size_calls: self.size_calls,
            fill_calls: self.fill_calls,
        }
    }
}

impl MemoryNative {
    /// A fresh native source with the given payload and phase statuses;
    /// neither phase has been invoked yet.
    pub fn new(text: Vec<u8>, size_status: i32, fill_status: i32) -> (r: MemoryNative)
        ensures
            r@.text == text@,
            r@.size_status == size_status,
            r@.fill_status == fill_status,
            r@.size_calls == 0,
            r@.fill_calls == 0,
    {
        MemoryNative { text, size_status, fill_status, size_calls: 0, fill_calls: 0 }
    }

    /// How many size-query calls have been made.
    pub fn size_count(&self) -> (n: u64)
        ensures
            n == self@.size_calls,
    {
        self.size_calls
    }

    /// How many fill calls have been made.
    pub fn fill_count(&self) -> (n: u64)
        ensures
            n == self@.fill_calls,
    {
        self.fill_calls
    }

    /// The size-query phase: reports its status and the payload's size.
    pub fn query_size(&mut self) -> (r: (i32, usize))
        ensures
            final(self)@ == old(self)@.bump_size(),
            r.0 == old(self)@.size_status,
            r.1 == old(self)@.text.len(),
    {
        self.size_calls = if self.size_calls < u64::MAX {
            self.size_calls + 1
        } else {
            self.size_calls
        };
        (self.size_status, self.text.len())
    }

    /// The fill phase: on a zero status, writes the payload into the
    /// buffer's prefix and reports the payload's size.
    pub fn fill(&mut self, buf: &mut Vec<u8>) -> (r: (i32, usize))
        requires
            old(self)@.text.len() < old(buf)@.len(),
        ensures
            final(self)@ == old(self)@.bump_fill(),
            r.0 == old(self)@.fill_status,
            old(self)@.fill_status == 0 ==> final(buf)@ == old(self)@.text + old(buf)@.skip(
                old(self)@.text.len() as int,
            ) && r.1 == old(self)@.text.len(),
            old(self)@.fill_status != 0 ==> final(buf)@ == old(buf)@ && r.1 == 0,
    {
        self.fill_calls = if self.fill_calls < u64::MAX {
            self.fill_calls + 1
        } else {
            self.fill_calls
        };
        if self.fill_status != 0 {
            return (self.fill_status, 0);
        }
        let n = self.text.len();
        let mut i: usize = 0;
        while i < n
            invariant
                i <= n,
                n == self.text@.len(),
                n < buf@.len(),
                self@ == old(self)@.bump_fill(),
                self@.text == old(self)@.text,
                buf@.len() == old(buf)@.len(),
                forall|j: int| 0 <= j < i ==> buf@[j] == self@.text[j],
                forall|j: int| i <= j < buf@.len() ==> buf@[j] == old(buf)@[j],
            decreases n - i,
        {
            let b = self.text[i];
            vstd::pervasive::VecAdditionalExecFns::set(buf, i, b);
            i += 1;
        }
        proof {
            assert(buf@ =~= old(self)@.text + old(buf)@.skip(old(self)@.text.len() as int));
        }
        (0, n)
    }
}

/// The native source's state after one two-phase read: the size query
/// always runs once; the fill phase runs exactly when the size query
/// succeeded.
pub open spec fn two_phase_native_after(n: NativeView) -> NativeView {
    if n.size_status != 0 {
        n.bump_size()
    } else {
        n.bump_size().bump_fill()
    }
}

/// How the returned value renders one two-phase read: a failed size query
/// short-circuits, a failed fill fails, and success decodes the payload
/// up to its first null terminator, lossily.
pub open spec fn two_phase_result_matches(n: NativeView, r: Result<String, LoadError>) -> bool {
    if n.size_status != 0 {
        r == Err::<String, LoadError>(LoadError::SizeQueryFailed(n.size_status))
    } else if n.fill_status != 0 {
        r == Err::<String, LoadError>(LoadError::FillFailed(n.fill_status))
    } else {
        r matches Ok(s) && s@ == lossy_text_of(fixed_window(n.text, n.text.len() as int))
    }
}

/// One full two-phase sized read against the in-memory native source.
///
/// The size of the payload is queried first; a non-zero status there
/// fails with `SizeQueryFailed` and the fill phase is never invoked. On
/// success, a buffer of exactly the required size plus one is allocated
/// and filled; a non-zero fill status fails with `FillFailed`, and a zero
/// status yields the payload decoded lossily up to its first null
/// terminator. A payload of null-free ASCII comes back as exactly its
/// own characters.
pub fn two_phase_read(src: &mut MemoryNative) -> (r: Result<String, LoadError>)
    requires
        old(src)@.text.len() < usize::MAX,
    ensures
        final(src)@ == two_phase_native_after(old(src)@),
        two_phase_result_matches(old(src)@, r),
        old(src)@.size_status != 0 ==> final(src)@.fill_calls == old(src)@.fill_calls,
        old(src)@.size_status == 0 && old(src)@.fill_status == 0 && is_clean_text(old(src)@.text)
            ==> (r matches Ok(s) && s@.len() == old(src)@.text.len() && (forall|i: int|
            0 <= i < s@.len() ==> s@[i] == old(src)@.text[i] as char)),
{
    let (status, required) = src.query_size();
    let sized = size_query_outcome(status, required);
    match sized {
        Err(e) => Err(e),
        Ok(req) => {
            let mut buf = make_fill_buffer(req);
            let (fill_status, reported) = src.fill(&mut buf);
            let ghost text = old(src)@.text;
            proof {
                if old(src)@.fill_status == 0 {
                    assert(clip_to(buf@, reported as int) =~= text);
                    assert(clip_to(text, text.len() as int) =~= text);
                    assert(fixed_window(buf@, reported as int) == fixed_window(
                        text,
                        text.len() as int,
                    ));
                    if is_clean_text(text) {
                        lemma_first_nul_at(text, text.len() as int);
                        assert(fixed_window(text, text.len() as int) =~= text);
                    }
                }
            }
            finish_fill(&buf, fill_status, reported)
        },
    }
}

} // verus!
