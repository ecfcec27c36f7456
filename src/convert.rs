use vstd::prelude::*;

verus! {

/// The text that lossy UTF-8 decoding makes of a byte string.
pub uninterp spec fn utf8_lossy(b: Seq<u8>) -> Seq<char>;

/// Relies on `String::from_utf8_lossy`: the text depends on the bytes alone.
#[verifier::external_body]
fn decode_lossy(b: &Vec<u8>) -> (r: String)
    ensures
        r@ == utf8_lossy(b@),
{
    String::from_utf8_lossy(b).into_owned()
}

/// Relies on `Vec::into_boxed_slice`: the same elements, in a boxed slice.
#[verifier::external_body]
fn into_boxed(v: Vec<u8>) -> (r: Box<[u8]>)
    ensures
        r@ == v@,
{
    v.into_boxed_slice()
}

/// A value that a received frame can be turned into.
pub trait FromMessage: Sized {
    /// Whether `self` is what the frame `msg` turns into.
    spec fn decodes(&self, msg: Seq<u8>) -> bool;

    fn from(msg: Vec<u8>) -> (r: Self)
        ensures
            r.decodes(msg@),
    ;
}

impl FromMessage for Vec<u8> {
    open spec fn decodes(&self, msg: Seq<u8>) -> bool {
        self@ == msg
    }

    fn from(msg: Vec<u8>) -> (r: Self) {
        msg
    }
}

impl FromMessage for String {
    open spec fn decodes(&self, msg: Seq<u8>) -> bool {
        self@ == utf8_lossy(msg)
    }

    fn from(msg: Vec<u8>) -> (r: Self) {
        decode_lossy(&msg)
    }
}

impl FromMessage for Box<[u8]> {
    open spec fn decodes(&self, msg: Seq<u8>) -> bool {
        self@ == msg
    }

    fn from(msg: Vec<u8>) -> (r: Self) {
        into_boxed(msg)
    }
}

/// Turns each frame of a received message into a `T`, keeping their order.
pub fn decode_frames<T: FromMessage>(frames: Vec<Vec<u8>>) -> (r: Vec<T>)
    ensures
        r.len() == frames.len(),
        forall|i: int| 0 <= i < r.len() ==> #[trigger] r[i].decodes(frames[i]@),
{
    let n = frames.len();
    let mut rest = frames;
    let mut out: Vec<T> = Vec::new();
    let mut i: usize = 0;
    while i < n
        invariant
            i <= n,
            n == frames.len(),
            out.len() == i,
            rest@ == frames@.subrange(i as int, n as int),
            forall|j: int| 0 <= j < i ==> #[trigger] out[j].decodes(frames[j]@),
        decreases n - i,
    {
        let f = rest.remove(0);
        let t = <T as FromMessage>::from(f);
        out.push(t);
        i = i + 1;
    }
    out
}

} // verus!
