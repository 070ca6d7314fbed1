//! Workload-side byte input: the reader abstraction workload code programs
//! against, with whole-stream helpers built on it.

use vstd::prelude::*;

verus! {

/// The error a read operation reports.
pub type Error = ();

/// The text `String::from_utf8_lossy` decodes a byte sequence to: a
/// deterministic function of the bytes alone.
pub uninterp spec fn lossy_of(b: Seq<u8>) -> Seq<char>;

/// Relies on String::from_utf8_lossy: decodes UTF-8 bytes, substituting
/// replacement characters for invalid sequences; the result depends on the
/// bytes alone, and empty input decodes to the empty string.
#[verifier::external_body]
fn utf8_lossy(v: &Vec<u8>) -> (r: String)
    ensures
        r@ == lossy_of(v@),
        v@.len() == 0 ==> r@.len() == 0,
{
    String::from_utf8_lossy(v).into_owned()
}

/// A source of bytes, read front to back.
pub trait Read: Sized {
    /// The bytes not yet read.
    spec fn spec_remaining(&self) -> Seq<u8>;

    /// Reads up to `max` bytes from the front of what remains; an empty
    /// result means the source is exhausted. On failure nothing is consumed.
    fn read(&mut self, max: usize) -> (r: Result<Vec<u8>, Error>)
        ensures
            match r {
                Ok(chunk) => {
                    let k = vstd::math::min(max as int, old(self).spec_remaining().len() as int);
                    &&& chunk@ == old(self).spec_remaining().take(k)
                    &&& final(self).spec_remaining() == old(self).spec_remaining().skip(k)
                },
                Err(e) => final(self).spec_remaining() == old(self).spec_remaining(),
            },
    ;

    /// Reads everything that remains, appending it to `buf` and returning
    /// how many bytes were read. On failure, what was read before the
    /// failure has been appended.
    fn read_to_end(&mut self, buf: &mut Vec<u8>) -> (r: Result<usize, Error>)
        requires
            old(self).spec_remaining().len() + old(buf)@.len() <= usize::MAX,
        ensures
            match r {
                Ok(n) => {
                    &&& final(buf)@ == old(buf)@ + old(self).spec_remaining()
                    &&& final(self).spec_remaining().len() == 0
                    &&& n == old(self).spec_remaining().len()
                },
                Err(e) => exists|k: int|
                    0 <= k <= old(self).spec_remaining().len() && final(buf)@ == old(buf)@ + old(
                        self,
                    ).spec_remaining().take(k) && final(self).spec_remaining() == old(
                        self,
                    ).spec_remaining().skip(k),
            },
        {
            let mut size: usize = 0;
            loop
                invariant
                    self.spec_remaining().len() + buf@.len() <= usize::MAX,
                    buf@ == old(buf)@ + old(self).spec_remaining().take(size as int),
                    self.spec_remaining() == old(self).spec_remaining().skip(size as int),
                    size <= old(self).spec_remaining().len(),
                decreases self.spec_remaining().len(),
            {
                let ghost rem = self.spec_remaining();
                let chunk = match self.read(1024) {
                    Ok(chunk) => chunk,
                    Err(e) => {
                        proof {
                            let k = size as int;
                            assert(buf@ == old(buf)@ + old(self).spec_remaining().take(k));
                        }
                        return Err(e);
                    },
                };
                if chunk.len() == 0 {
                    proof {
                        assert(rem.take(0) =~= Seq::<u8>::empty());
                        assert(rem.len() == 0);
                        assert(old(self).spec_remaining().take(size as int) =~= old(
                            self,
                        ).spec_remaining());
                        assert(buf@ =~= old(buf)@ + old(self).spec_remaining());
                    }
                    return Ok(size);
                }
                let s = chunk.len();
                buf.extend_from_slice(chunk.as_slice());
                proof {
                    assert(old(self).spec_remaining().take(size + s as int) =~= old(
                        self,
                    ).spec_remaining().take(size as int) + rem.take(s as int));
                    assert(old(self).spec_remaining().skip(size + s as int) =~= rem.skip(
                        s as int,
                    ));
                    assert(buf@ =~= old(buf)@ + old(self).spec_remaining().take(size + s as int));
                }
                size = size + s;
            }
        }

    /// Reads everything that remains and decodes it as UTF-8 text, replacing
    /// `buf` with the decoded text and returning its length in bytes. On
    /// failure the text is left as it was.
    fn read_to_string(&mut self, buf: &mut String) -> (r: Result<usize, Error>)
        requires
            old(self).spec_remaining().len() <= usize::MAX,
        ensures
            match r {
                Ok(n) => {
                    &&& final(buf)@ == lossy_of(old(self).spec_remaining())
                    &&& final(self).spec_remaining().len() == 0
                },
                Err(e) => final(buf)@ == old(buf)@,
            },
        {
            let mut v_buf: Vec<u8> = Vec::with_capacity(1000);
            let ghost rem = self.spec_remaining();
            match self.read_to_end(&mut v_buf) {
                Ok(_) => {},
                Err(e) => {
                    return Err(e);
                },
            }
            proof {
                assert(Seq::<u8>::empty() + rem =~= rem);
            }
            let s = utf8_lossy(&v_buf);
            let n = s.as_str().len();
            *buf = s;
            Ok(n)
        }
}

/// An in-memory byte source: a buffer of bytes read front to back.
pub struct BytesReader {
    pub data: Vec<u8>,
    pub pos: usize,
}

impl BytesReader {
    /// A reader over the given bytes, positioned at the start.
    pub fn new(data: Vec<u8>) -> (r: BytesReader)
        ensures
            r.spec_remaining() == data@,
    {
        let r = BytesReader { data, pos: 0 };
        proof {
            assert(r.spec_remaining() =~= r.data@);
        }
        r
    }
}

impl Read for BytesReader {
    open spec fn spec_remaining(&self) -> Seq<u8> {
        if self.pos <= self.data@.len() {
            self.data@.skip(self.pos as int)
        } else {
            Seq::empty()
        }
    }

    fn read(&mut self, max: usize) -> (r: Result<Vec<u8>, Error>) {
        if self.pos >= self.data.len() {
            let chunk: Vec<u8> = Vec::new();
            proof {
                assert(chunk@ =~= old(self).spec_remaining().take(0));
            }
            return Ok(chunk);
        }
        let remaining = self.data.len() - self.pos;
        let k = if max < remaining {
            max
        } else {
            remaining
        };
        let mut chunk: Vec<u8> = Vec::new();
        let mut j: usize = 0;
        while j < k
            invariant
                j <= k,
                self.pos + k <= usize::MAX,
                self.pos + k <= self.data@.len(),
                chunk@ == self.data@.subrange(self.pos as int, self.pos + j),
            decreases k - j,
        {
            let b = self.data[self.pos + j];
            chunk.push(b);
            proof {
                assert(chunk@ =~= self.data@.subrange(self.pos as int, self.pos + j + 1));
            }
            j = j + 1;
        }
        self.pos = self.pos + k;
        proof {
            assert(chunk@ =~= old(self).spec_remaining().take(k as int));
            assert(self.spec_remaining() =~= old(self).spec_remaining().skip(k as int));
        }
        Ok(chunk)
    }
}

} // verus!
