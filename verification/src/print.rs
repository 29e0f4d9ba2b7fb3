//! The messages of the print task. A text is formatted into a buffer that
//! lives inline up to 128 bytes and on the heap beyond that, and travels to
//! the print task in whichever form it took.

use vstd::prelude::*;
use vstd::string::StringSliceAdditionalSpecFns;

verus! {

/// The inline part of a message buffer, `tinyvec::ArrayVec`.
#[verifier::external_type_specification]
#[verifier::external_body]
#[verifier::reject_recursive_types(A)]
pub struct ExArrayVec<A>(tinyvec::ArrayVec<A>);

/// The bytes that an inline buffer holds, in order.
pub uninterp spec fn array_vec_bytes(a: tinyvec::ArrayVec<[u8; 128]>) -> Seq<u8>;

/// The bytes of an inline buffer: a call of `ArrayVec::as_slice`, which
/// gives the part of the backing array that is in use. The array has 128
/// places, so the bytes are at most that many.
#[verifier::external_body]
fn inline_bytes(a: &tinyvec::ArrayVec<[u8; 128]>) -> (r: &[u8])
    ensures
        r@ == array_vec_bytes(*a),
        r@.len() <= 128,
{
    a.as_slice()
}

/// A message for the print task.
#[derive(Debug, PartialEq, Eq)]
pub enum Print {
    /// A fixed text.
    Static(&'static str),
    /// A formatted text that fits the inline buffer.
    Dyn(tinyvec::ArrayVec<[u8; 128]>),
    /// A formatted text that does not.
    Aloc(Box<[u8]>),
    /// The print task ends.
    Shutdown,
}

impl Print {
    /// The bytes that the message prints as.
    pub open spec fn bytes(self) -> Seq<u8> {
        match self {
            Print::Static(text) => text.spec_bytes(),
            Print::Dyn(inline) => array_vec_bytes(inline),
            Print::Aloc(heap) => heap@,
            Print::Shutdown => seq![10u8],
        }
    }

    /// The bytes that the message prints as; a line feed for `Shutdown`.
    pub fn as_bytes(&self) -> (r: &[u8])
        ensures
            r@ == self.bytes(),
    {
        match self {
            Print::Static(text) => text.as_bytes(),
            Print::Aloc(heap) => &**heap,
            Print::Shutdown => {
                let r = line_feed();
                r
            },
            Print::Dyn(inline) => inline_bytes(inline),
        }
    }
}

/// The line feed.
fn line_feed() -> (r: &'static [u8])
    ensures
        r@ == seq![10u8],
{
    let r: &'static [u8; 1] = &[10u8];
    proof {
        assert(r@ =~= seq![10u8]);
    }
    vstd::array::array_as_slice(r)
}

} // verus!
