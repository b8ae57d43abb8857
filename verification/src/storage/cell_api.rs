//! A durable slot for one value: what every cell of the index offers.

use crate::types::error::{Error, ErrorKind, ErrorView};
use vstd::prelude::*;
use vstd::string::*;

verus! {

/// The message of a cell that was read before anything was put into it.
pub open spec fn not_initialized_text(name: Seq<char>) -> Seq<char> {
    "Failed to get "@ + name + ", not initialized"@
}

/// The message of a cell that could not take a value.
pub open spec fn not_set_text(name: Seq<char>) -> Seq<char> {
    "Failed to set "@ + name
}

/// A durable slot that holds one value or nothing, with a name for error reports.
pub trait CellStorage<V: View>: Sized {
    /// What the cell holds.
    spec fn content(&self) -> Option<V::V>;

    /// The name of the cell in error reports.
    spec fn name_text() -> Seq<char>;

    /// The name of the cell in error reports.
    fn name() -> (r: &'static str)
        ensures
            r@ == Self::name_text(),
    ;

    /// The number of the region of stable memory that holds the cell.
    spec fn memory_number() -> u8;

    /// The number of the region of stable memory in which this cell was opened.
    spec fn region(&self) -> u8;

    /// The number of the region of stable memory that holds the cell. The
    /// number 255 is no region.
    fn memory_id() -> (r: u8)
        ensures
            r == Self::memory_number(),
            r < 255,
    ;

    /// What the cell holds.
    fn load(&self) -> (r: Option<V>)
        ensures
            r is Some <==> self.content() is Some,
            r is Some ==> r->0@ == self.content()->0,
    ;

    /// Puts `value` into the cell and says whether it did. A cell that
    /// cannot take the value keeps what it held.
    fn save(&mut self, value: &V) -> (r: bool)
        ensures
            r ==> final(self).content() == Some(value@),
            !r ==> final(self).content() == old(self).content(),
            final(self).region() == old(self).region(),
    ;

    /// What the cell holds; `Internal` where it holds nothing.
    fn get(&self, now: u64) -> (r: Result<V, Error>)
        ensures
            r is Ok <==> self.content() is Some,
            r matches Ok(v) ==> v@ == self.content()->0,
            r matches Err(e) ==> e@ == ErrorView::bare(ErrorKind::Internal, now).with_message(
                not_initialized_text(Self::name_text()),
            ),
    {
        match self.load() {
            Some(value) => Ok(value),
            None => {
                let mut message = String::from_str("Failed to get ");
                message.append(Self::name());
                message.append(", not initialized");
                Err(Error::internal(now).add_message(message.as_str()))
            },
        }
    }

    /// Replaces what the cell holds by `value` and gives it back;
    /// `Internal` where the cell could not take it, and then kept what it held.
    fn set(&mut self, value: V, now: u64) -> (r: Result<V, Error>)
        ensures
            final(self).region() == old(self).region(),
            r matches Ok(v) ==> v@ == value@ && final(self).content() == Some(value@),
            r matches Err(e) ==> final(self).content() == old(self).content() && e@
                == ErrorView::bare(ErrorKind::Internal, now).with_message(
                not_set_text(Self::name_text()),
            ),
    {
        if self.save(&value) {
            Ok(value)
        } else {
            let mut message = String::from_str("Failed to set ");
            message.append(Self::name());
            Err(Error::internal(now).add_message(message.as_str()))
        }
    }
}

} // verus!
