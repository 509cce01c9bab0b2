use vstd::prelude::*;

verus! {

/// An event to post: its source, its id and a borrowed payload. The bytes
/// are not copied here; the facility copies them while posting.
pub struct EspEventPostData<'a> {
    pub source: u64,
    pub event_id: i32,
    pub payload: &'a [u8],
}

impl<'a> EspEventPostData<'a> {
    /// An event from `source` with `event_id` carrying `payload`.
    pub fn new(source: u64, event_id: i32, payload: &'a [u8]) -> (r: EspEventPostData<'a>)
        ensures
            r.source == source,
            r.event_id == event_id,
            r.payload@ == payload@,
    {
        EspEventPostData { source, event_id, payload }
    }

    /// The number of payload bytes handed to the facility.
    pub fn payload_len(&self) -> (r: usize)
        ensures
            r == self.payload@.len(),
    {
        self.payload.len()
    }
}

} // verus!
