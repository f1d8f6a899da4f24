//! Decoding the Arrow IPC streams that `ArrowBatch` responses carry.
use crate::error::Error;
use arrow::error::ArrowError;
use arrow::record_batch::RecordBatch;
use arrow_ipc::reader::StreamReader;
use std::io::Cursor;
use vstd::prelude::*;

verus! {

/// A decoded Arrow record batch, handed on to the caller as it came from the stream.
#[verifier::external_body]
#[derive(Debug)]
pub struct Batch {
    pub record_batch: RecordBatch,
}

#[verifier::external_type_specification]
#[verifier::external_body]
#[verifier::reject_recursive_types(R)]
pub struct ExStreamReader<R>(StreamReader<R>);

#[verifier::external_type_specification]
#[verifier::external_body]
#[verifier::reject_recursive_types(T)]
pub struct ExCursor<T>(Cursor<T>);

/// Whether `arrow_ipc::reader::StreamReader::try_new` accepts `data` as the start of
/// an Arrow IPC stream (its first message must be a schema).
pub uninterp spec fn ipc_stream_opens(data: Seq<u8>) -> bool;

/// Calls `arrow_ipc::reader::StreamReader::try_new` on an in-memory cursor over `data`,
/// with no projection. It succeeds exactly when `ipc_stream_opens(data)`, which is
/// what it reads of `data` alone; on no bytes at all it fails ("found empty stream").
#[verifier::external_body]
fn open_stream(data: Vec<u8>) -> (reader: Result<StreamReader<Cursor<Vec<u8>>>, ArrowError>)
    ensures
        reader is Ok <==> ipc_stream_opens(data@),
        data@.len() == 0 ==> reader is Err,
{
    StreamReader::try_new(Cursor::new(data), None)
}

/// A place in an Arrow IPC stream: the stream's bytes, and how many items have been
/// read from it.
pub struct IpcPosition {
    pub data: Seq<u8>,
    pub index: nat,
}

/// What reading the next item of an Arrow IPC stream gives.
pub enum IpcItem {
    /// A record batch, with its rendering as a text table (`None` where it cannot be
    /// rendered)
    Batch(Option<Seq<char>>),
    /// An Arrow error
    Error,
    /// The end of the stream
    End,
    /// Nothing: the reader panics (on a buffer that runs past its message body)
    Aborts,
}

/// What `Iterator::next` of an `arrow_ipc::reader::StreamReader` opened on `at.data`
/// gives after `at.index` items were read, with a record batch rendered by
/// `arrow::util::pretty::pretty_format_batches`: it depends on those bytes alone.
pub uninterp spec fn ipc_item(at: IpcPosition) -> IpcItem;

/// The text of an optional rendering.
pub open spec fn text_of(text: Option<String>) -> Option<Seq<char>> {
    match text {
        Some(t) => Some(t@),
        None => None,
    }
}

/// Calls `Iterator::next` of the `arrow_ipc::reader::StreamReader` of `batches`: a
/// record batch, an Arrow error, or `None` at the end, as `ipc_item` names it for the
/// stream and the number of items read; a record batch comes with its rendering by
/// `arrow::util::pretty::pretty_format_batches` (`None` when that fails). On items
/// where the reader panics it is not called. Which record batch or error object
/// comes is not stated (they hold shared buffers); the rendering is. The count of
/// items read is kept by the caller.
#[verifier::external_body]
fn next_item(batches: &mut IpcBatches) -> (item: Option<Result<(Batch, Option<String>), ArrowError>>)
    requires
        !(ipc_item(old(batches)@) is Aborts),
    ensures
        final(batches)@ == old(batches)@,
        match ipc_item(old(batches)@) {
            IpcItem::Batch(rendering) => item matches Some(Ok((_, text))) && text_of(text) == rendering,
            IpcItem::Error => item matches Some(Err(_)),
            IpcItem::End => item is None,
            IpcItem::Aborts => false,
        },
{
    match batches.reader.next() {
        Some(Ok(record_batch)) => {
            let text = match arrow::util::pretty::pretty_format_batches(&[record_batch.clone()]) {
                Ok(table) => Some(table.to_string()),
                Err(_) => None,
            };
            Some(Ok((Batch { record_batch }, text)))
        },
        Some(Err(e)) => Some(Err(e)),
        None => None,
    }
}

/// A record batch of a stream, with its rendering as a text table.
#[derive(Debug)]
pub struct Decoded {
    pub batch: Batch,
    /// The rendering, or `None` where the batch cannot be rendered
    pub text: Option<String>,
}

/// The record batches of one Arrow IPC stream, read one at a time.
pub struct IpcBatches {
    reader: StreamReader<Cursor<Vec<u8>>>,
    data: Ghost<Seq<u8>>,
    index: Ghost<nat>,
}

impl View for IpcBatches {
    type V = IpcPosition;

    closed spec fn view(&self) -> IpcPosition {
        IpcPosition { data: self.data@, index: self.index@ }
    }
}

impl IpcBatches {
    /// Starts reading the Arrow IPC stream in `data`. It fails, with an Arrow error,
    /// exactly when the stream does not start with a schema; otherwise no item is read yet.
    pub fn open(data: Vec<u8>) -> (batches: Result<IpcBatches, Error>)
        ensures
            batches is Ok <==> ipc_stream_opens(data@),
            batches matches Ok(b) ==> b@ == (IpcPosition { data: data@, index: 0 }),
            batches matches Err(e) ==> e is ArrowError,
    {
        let ghost bytes = data@;
        match open_stream(data) {
            Ok(reader) => Ok(IpcBatches { reader, data: Ghost(bytes), index: Ghost(0) }),
            Err(e) => Err(Error::ArrowError(e)),
        }
    }

    /// The next item of the stream: a record batch with its rendering, the Arrow error
    /// that the stream gives, or `None` at its end; the count of items read goes up by one.
    pub fn next_batch(&mut self) -> (item: Option<Result<Decoded, Error>>)
        requires
            !(ipc_item(old(self)@) is Aborts),
        ensures
            final(self)@ == (IpcPosition { data: old(self)@.data, index: old(self)@.index + 1 }),
            match ipc_item(old(self)@) {
                IpcItem::Batch(rendering) => item matches Some(Ok(d)) && text_of(d.text) == rendering,
                IpcItem::Error => item matches Some(Err(e)) && e is ArrowError,
                _ => item is None,
            },
    {
        let item = next_item(self);
        self.index = Ghost(self.index@ + 1);
        match item {
            Some(Ok((batch, text))) => Some(Ok(Decoded { batch, text })),
            Some(Err(e)) => Some(Err(Error::ArrowError(e))),
            None => None,
        }
    }
}

} // verus!
