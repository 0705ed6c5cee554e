//! Receiving the body of an object: the chunks in which the store sends it
//! are joined into one buffer, or the transfer fails with the store's fault.

use crate::error::{Fault, FaultView};
use vstd::prelude::*;
use vstd::slice::slice_to_vec;

verus! {

/// The model of a chunk of a body, or of the fault in its place.
pub open spec fn chunk_view(chunk: Result<Vec<u8>, Fault>) -> Result<Seq<u8>, FaultView> {
    match chunk {
        Ok(bytes) => Ok(bytes@),
        Err(fault) => Err(fault@),
    }
}

/// The model of the chunks of one body.
pub open spec fn chunks_view(chunks: Seq<Result<Vec<u8>, Fault>>) -> Seq<
    Result<Seq<u8>, FaultView>,
> {
    Seq::new(chunks.len(), |i: int| chunk_view(chunks[i]))
}

/// The result `rest` of the chunks that follow, behind the bytes received so
/// far.
pub open spec fn continued(bytes: Seq<u8>, rest: Result<Seq<u8>, FaultView>) -> Result<
    Seq<u8>,
    FaultView,
> {
    match rest {
        Ok(more) => Ok(bytes + more),
        Err(fault) => Err(fault),
    }
}

/// The body received from `chunks`, in this order: their bytes joined, or the
/// first fault among them.
pub open spec fn received(chunks: Seq<Result<Seq<u8>, FaultView>>) -> Result<Seq<u8>, FaultView>
    decreases chunks.len(),
{
    if chunks.len() == 0 {
        Ok(Seq::empty())
    } else {
        match chunks[0] {
            Ok(bytes) => continued(bytes, received(chunks.drop_first())),
            Err(fault) => Err(fault),
        }
    }
}

/// The model of a received body.
pub open spec fn body_outcome(r: Result<Vec<u8>, Fault>) -> Result<Seq<u8>, FaultView> {
    chunk_view(r)
}

/// A copy of a fault.
pub fn copy_fault(fault: &Fault) -> (copy: Fault)
    ensures
        copy@ == fault@,
{
    let code = match &fault.code {
        Some(code) => Some(code.clone()),
        None => None,
    };
    Fault { origin: fault.origin, code, message: fault.message.clone() }
}

/// What the store sent next of a body.
#[derive(Debug)]
pub enum BodyEvent {
    /// The next bytes of the body.
    Chunk(Vec<u8>),
    /// The body broke off.
    Failed(Fault),
    /// The body is complete.
    End,
}

/// What a download does after an event.
#[derive(Debug)]
pub enum DownloadStep {
    /// Wait for the next chunk.
    NextChunk(Download),
    /// Return this result.
    Finished(Result<Vec<u8>, Fault>),
}

/// A download in progress: the bytes received so far.
#[derive(Debug)]
pub struct Download {
    buffer: Vec<u8>,
}

impl View for Download {
    type V = Seq<u8>;

    closed spec fn view(&self) -> Seq<u8> {
        self.buffer@
    }
}

impl Download {
    /// A download that has received nothing.
    pub fn new() -> (download: Download)
        ensures
            download@ == Seq::<u8>::empty(),
    {
        Download { buffer: Vec::new() }
    }

    /// Adds a chunk behind the bytes already received.
    pub fn receive(&mut self, chunk: &[u8])
        ensures
            final(self)@ == old(self)@ + chunk@,
    {
        let mut bytes = slice_to_vec(chunk);
        self.buffer.append(&mut bytes);
    }

    /// Ends the download with the bytes received.
    pub fn finish(self) -> (body: Vec<u8>)
        ensures
            body@ == self@,
    {
        self.buffer
    }

    /// Takes what the store sent next, and says what to do next.
    pub fn step(self, event: &BodyEvent) -> (next: DownloadStep)
        ensures
            match *event {
                BodyEvent::Chunk(bytes) => next matches DownloadStep::NextChunk(download)
                    && download@ == self@ + bytes@,
                BodyEvent::Failed(fault) => next matches DownloadStep::Finished(Err(reported))
                    && reported@ == fault@,
                BodyEvent::End => next matches DownloadStep::Finished(Ok(body)) && body@ == self@,
            },
    {
        match event {
            BodyEvent::Chunk(bytes) => {
                let mut download = self;
                download.receive(bytes.as_slice());
                DownloadStep::NextChunk(download)
            },
            BodyEvent::Failed(fault) => DownloadStep::Finished(Err(copy_fault(fault))),
            BodyEvent::End => DownloadStep::Finished(Ok(self.finish())),
        }
    }
}

/// Joins the chunks of one body, in the order in which the store sent them:
/// the whole body, or the first fault and no byte at all.
pub fn get_object(chunks: &Vec<Result<Vec<u8>, Fault>>) -> (r: Result<Vec<u8>, Fault>)
    ensures
        body_outcome(r) == received(chunks_view(chunks@)),
{
    let mut download = Download::new();
    let mut i: usize = 0;
    let ghost all = chunks_view(chunks@);
    assert(all.skip(0) =~= all);
    while i < chunks.len()
        invariant
            i <= chunks.len(),
            all == chunks_view(chunks@),
            received(all) == continued(download@, received(all.skip(i as int))),
        decreases chunks.len() - i,
    {
        let ghost rest = all.skip(i as int);
        assert(rest.drop_first() =~= all.skip(i + 1 as int));
        match &chunks[i] {
            Ok(bytes) => {
                let ghost before = download@;
                download.receive(bytes.as_slice());
                let ghost more = received(rest.drop_first())->Ok_0;
                assert(before + (bytes@ + more) =~= download@ + more);
            },
            Err(fault) => {
                return Err(copy_fault(fault));
            },
        }
        i += 1;
    }
    Ok(download.finish())
}

} // verus!
