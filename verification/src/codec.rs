//! The reversible transform between a record's serialised bytes and the
//! bytes of its file.

use std::io::Read;
use std::io::Write;
use vstd::prelude::*;
use vstd::slice::slice_to_vec;

verus! {

/// The gzip stream that `flate2` writes for a byte string at its default
/// compression level.
pub uninterp spec fn gzip_of(data: Seq<u8>) -> Seq<u8>;

/// What `flate2` reads out of a gzip stream: the bytes it holds, or nothing
/// where the stream is malformed, cut short, or fails its checksum.
pub uninterp spec fn gunzip_of(stored: Seq<u8>) -> Option<Seq<u8>>;

/// How records are framed on disk.
#[derive(Clone, Copy, Debug, PartialEq, Eq)]
pub enum Codec {
    /// The serialised bytes as they are.
    Plain,
    /// The serialised bytes as one gzip stream.
    Gzip,
}

/// Why a record could not be had from the store.
#[derive(Clone, Copy, Debug, PartialEq, Eq)]
pub enum StoreError {
    /// The file or the directory could not be read or written.
    Io,
    /// The file's bytes are not a complete record.
    Corrupt,
}

/// `flate2::write::GzEncoder` over a `Vec`, at `Compression::default()`:
/// `write_all` of `data`, then `finish`. Believed of it: the bytes written
/// are a function of `data` alone, and `flate2::read::GzDecoder` reads
/// `data` back out of them.
#[verifier::external_body]
fn gzip(data: &[u8]) -> (out: Vec<u8>)
    ensures
        out@ == gzip_of(data@),
        gunzip_of(out@) == Some(data@),
{
    let mut gz = flate2::write::GzEncoder::new(Vec::new(), flate2::Compression::default());
    gz.write_all(data).expect("writing to memory");
    gz.finish().expect("writing to memory")
}

/// `flate2::read::GzDecoder` over `stored`, read to its end. Believed of it:
/// whether it succeeds, and the bytes it then gives, are a function of
/// `stored` alone.
#[verifier::external_body]
fn gunzip(stored: &[u8]) -> (out: Option<Vec<u8>>)
    ensures
        out is None <==> gunzip_of(stored@) is None,
        out matches Some(data) ==> gunzip_of(stored@) == Some(data@),
{
    let mut data = Vec::new();
    match flate2::read::GzDecoder::new(stored).read_to_end(&mut data) {
        Ok(_) => Some(data),
        Err(_) => None,
    }
}

impl Codec {
    /// The file bytes of serialised bytes `data`.
    pub open spec fn encoded(self, data: Seq<u8>) -> Seq<u8> {
        match self {
            Codec::Plain => data,
            Codec::Gzip => gzip_of(data),
        }
    }

    /// The serialised bytes inside file bytes `stored`, if they are whole.
    pub open spec fn decoded(self, stored: Seq<u8>) -> Option<Seq<u8>> {
        match self {
            Codec::Plain => Some(stored),
            Codec::Gzip => gunzip_of(stored),
        }
    }

    /// Frames serialised bytes for writing. `decode` gives them back.
    pub fn encode(&self, data: &[u8]) -> (out: Vec<u8>)
        ensures
            out@ == self.encoded(data@),
            self.decoded(out@) == Some(data@),
    {
        match self {
            Codec::Plain => slice_to_vec(data),
            Codec::Gzip => gzip(data),
        }
    }

    /// Unframes the bytes of a file. A file that does not hold a whole
    /// frame is corrupt.
    pub fn decode(&self, stored: &[u8]) -> (out: Result<Vec<u8>, StoreError>)
        ensures
            out is Ok <==> self.decoded(stored@) is Some,
            out matches Ok(data) ==> self.decoded(stored@) == Some(data@),
            out matches Err(e) ==> e == StoreError::Corrupt,
    {
        match self {
            Codec::Plain => Ok(slice_to_vec(stored)),
            Codec::Gzip => match gunzip(stored) {
                Some(data) => Ok(data),
                None => Err(StoreError::Corrupt),
            },
        }
    }

    /// Unframes what was found at a record's path: nothing where there was no
    /// file, the serialised bytes where the file holds a whole frame.
    pub fn open(&self, file: Option<Vec<u8>>) -> (out: Result<Option<Vec<u8>>, StoreError>)
        ensures
            file is None ==> out == Ok::<Option<Vec<u8>>, StoreError>(None),
            file matches Some(stored) ==> match self.decoded(stored@) {
                Some(data) => out matches Ok(Some(found)) && found@ == data,
                None => out == Err::<Option<Vec<u8>>, StoreError>(StoreError::Corrupt),
            },
    {
        match file {
            None => Ok(None),
            Some(stored) => match self.decode(stored.as_slice()) {
                Ok(data) => Ok(Some(data)),
                Err(_) => Err(StoreError::Corrupt),
            },
        }
    }
}

} // verus!
