//! `Data` is the immutable byte string used for map keys and value payloads.
//! It is backed by `bytes::Bytes`, so a value can be shared cheaply between a
//! table map and a snapshot by bumping a reference count; comparison is by
//! content. The contents of a `bytes::Bytes` buffer are abstracted by the
//! `bytes_content` sequence, and each buffer operation the store relies on is
//! wrapped with a contract over that sequence.

use vstd::prelude::*;

verus! {

#[verifier::external_type_specification]
#[verifier::external_body]
pub struct ExBytes(bytes::Bytes);

/// The byte sequence a `bytes::Bytes` buffer holds.
pub uninterp spec fn bytes_content(b: bytes::Bytes) -> Seq<u8>;

/// Relies on `impl From<Vec<u8>> for bytes::Bytes`: the buffer takes over the
/// vector's bytes unchanged.
#[verifier::external_body]
fn bytes_from_vec(v: Vec<u8>) -> (r: bytes::Bytes)
    ensures
        bytes_content(r) == v@,
{
    bytes::Bytes::from(v)
}

/// Relies on `impl Clone for bytes::Bytes`: a clone is a new handle onto the
/// same bytes.
#[verifier::external_body]
fn bytes_clone(b: &bytes::Bytes) -> (r: bytes::Bytes)
    ensures
        bytes_content(r) == bytes_content(*b),
{
    b.clone()
}

/// Relies on `impl PartialEq for bytes::Bytes`: equality compares the
/// contents as byte slices.
#[verifier::external_body]
fn bytes_equal(a: &bytes::Bytes, b: &bytes::Bytes) -> (r: bool)
    ensures
        r == (bytes_content(*a) == bytes_content(*b)),
{
    a == b
}

/// Relies on `bytes::Bytes::len`: the number of bytes held.
#[verifier::external_body]
fn bytes_length(b: &bytes::Bytes) -> (r: usize)
    ensures
        r == bytes_content(*b).len(),
{
    b.len()
}

/// Relies on `impl AsRef<[u8]> for bytes::Bytes`: a borrowed slice of the
/// contents.
#[verifier::external_body]
fn bytes_as_slice<'a>(b: &'a bytes::Bytes) -> (r: &'a [u8])
    ensures
        r@ == bytes_content(*b),
{
    b.as_ref()
}

/// An immutable byte string, the key and value payload of the store. Its
/// abstract value is the byte sequence it holds.
pub struct Data {
    blob: bytes::Bytes,
}

impl View for Data {
    type V = Seq<u8>;

    closed spec fn view(&self) -> Seq<u8> {
        bytes_content(self.blob)
    }
}

impl Data {
    /// Build a byte string owning the given bytes.
    pub fn from_vec(v: Vec<u8>) -> (r: Data)
        ensures
            r@ == v@,
    {
        Data { blob: bytes_from_vec(v) }
    }

    /// A new handle onto the same contents; the underlying buffer is shared,
    /// not copied.
    pub fn clone_data(&self) -> (r: Data)
        ensures
            r@ == self@,
    {
        Data { blob: bytes_clone(&self.blob) }
    }

    /// Number of bytes held.
    pub fn len(&self) -> (r: usize)
        ensures
            r == self@.len(),
    {
        bytes_length(&self.blob)
    }

    /// Content equality: true exactly when both sides hold the same bytes.
    pub fn content_eq(&self, other: &Data) -> (r: bool)
        ensures
            r == (self@ == other@),
    {
        bytes_equal(&self.blob, &other.blob)
    }

    /// Borrow the contents as a slice.
    pub fn as_slice<'a>(&'a self) -> (r: &'a [u8])
        ensures
            r@ == self@,
    {
        bytes_as_slice(&self.blob)
    }
}

} // verus!
