//! The reader: what it answers about items, formats and data.
//!
//! A reader holds the content object of a clipboard-like source, or none
//! for an empty one. It makes no foreign call itself. Where an answer needs
//! one, the embedding program makes the call on the content object that
//! [`PlatformDataReader::clip_data`] hands out and passes the outcome in;
//! where a fetch has to be issued, the reader says under which handle.

use vstd::prelude::*;
use std::path::PathBuf;
use std::sync::Arc;
use crate::dispatch::{completion_message, outcome_view, spec_decode_outcome, ForeignPayload};
use crate::error::{NativeExtensionsError, NativeExtensionsResult};
use crate::pending::{CompletionMessage, PendingRequests};
use crate::suggested_name::{
    name_from_url_text,
    spec_name_from_url_text,
    text_view,
    MIME_TYPE_URI_LIST,
};
use crate::value::Value;

verus! {

/// `std::path::PathBuf`, the path of a folder or file. Nothing is claimed
/// of what it holds; the reader never makes or reads one.
#[verifier::external_type_specification]
#[verifier::external_body]
pub struct ExPathBuf(PathBuf);

/// The hook through which a transfer in stages reports how far it is. A
/// fetch of this reader completes in one step and never reports through it.
pub struct ReadProgress {}

/// What the foreign helper answers when asked for the formats of an item:
/// no array at all, or an array whose elements are read one by one, each
/// read giving a format or failing.
pub enum FormatListing {
    Null,
    Array(Vec<NativeExtensionsResult<String>>),
}

/// What a request for data comes to.
pub enum DataRequest<S> {
    /// The value is known at once and nothing is to be issued; the sink
    /// comes back unused.
    Ready { value: Value, sink: S },
    /// The sink waits in the table under `handle`. The foreign fetch is to
    /// be issued with exactly this item, format and handle.
    Issued { handle: i64, item: i64, format: String },
}

/// A reader over a content object of type `C`. `T` is the type of a token
/// that keeps an in-process data source alive for as long as the reader
/// exists.
pub struct PlatformDataReader<C, T> {
    clip_data: Option<C>,
    _source_drop_notifier: Option<T>,
}

/// The indices of the items of a source that reports `count` items.
pub open spec fn spec_items(count: i32) -> Seq<i64> {
    Seq::new(
        if count > 0 {
            count as nat
        } else {
            0
        },
        |i: int| i as i64,
    )
}

/// Whether `items` is what a reader answers for its items, given whether
/// it holds a content object and what that object reported as its count.
pub open spec fn items_answer(
    holds_content: bool,
    item_count: NativeExtensionsResult<i32>,
    items: NativeExtensionsResult<Vec<i64>>,
) -> bool {
    if !holds_content {
        items matches Ok(list) && list@.len() == 0
    } else {
        match item_count {
            Ok(count) => items matches Ok(list) && list@ == spec_items(count),
            Err(error) => items == Err::<Vec<i64>, NativeExtensionsError>(error),
        }
    }
}

/// Whether every element of a format array was read.
pub open spec fn all_read(elements: Seq<NativeExtensionsResult<String>>) -> bool {
    forall|i: int| 0 <= i < elements.len() ==> (#[trigger] elements[i]) is Ok
}

/// Whether the element at `i` is the first whose read failed.
pub open spec fn is_first_failure(elements: Seq<NativeExtensionsResult<String>>, i: int) -> bool {
    &&& 0 <= i < elements.len()
    &&& elements[i] is Err
    &&& forall|j: int| 0 <= j < i ==> (#[trigger] elements[j]) is Ok
}

/// The formats of an array whose elements were all read, in the array's
/// order.
pub open spec fn texts_of(elements: Seq<NativeExtensionsResult<String>>) -> Seq<Seq<char>> {
    Seq::new(elements.len(), |i: int| elements[i]->Ok_0@)
}

/// Whether `formats` is what reading `elements` one by one comes to: every
/// format in order where all reads succeeded, else the error of the first
/// read that failed.
pub open spec fn collected_as(
    elements: Seq<NativeExtensionsResult<String>>,
    formats: NativeExtensionsResult<Vec<String>>,
) -> bool {
    match formats {
        Ok(list) => all_read(elements) && list.deep_view() == texts_of(elements),
        Err(error) => exists|i: int| #[trigger]
            is_first_failure(elements, i) && elements[i] == Err::<String, NativeExtensionsError>(
                error,
            ),
    }
}

/// Whether `formats` is what a reader answers for the formats of an item,
/// given whether it holds a content object and what the helper answered.
pub open spec fn formats_answer(
    holds_content: bool,
    listing: NativeExtensionsResult<FormatListing>,
    formats: NativeExtensionsResult<Vec<String>>,
) -> bool {
    if !holds_content {
        formats matches Ok(list) && list@.len() == 0
    } else {
        match listing {
            Err(error) => formats == Err::<Vec<String>, NativeExtensionsError>(error),
            Ok(FormatListing::Null) => formats matches Ok(list) && list@.len() == 0,
            Ok(FormatListing::Array(elements)) => collected_as(elements@, formats),
        }
    }
}

/// Whether the URI-list format is among the formats that a reader answers.
pub open spec fn spec_offers_uri_list(
    holds_content: bool,
    listing: NativeExtensionsResult<FormatListing>,
) -> bool {
    &&& holds_content
    &&& listing matches Ok(FormatListing::Array(elements))
    &&& all_read(elements@)
    &&& texts_of(elements@).contains(MIME_TYPE_URI_LIST@)
}

/// The file name suggested for an item: where the item offers the URI-list
/// format and the data fetched in it is a text, what that text suggests
/// when read as a URL; nothing otherwise.
pub open spec fn spec_suggested_name(
    holds_content: bool,
    listing: NativeExtensionsResult<FormatListing>,
    uri_list: NativeExtensionsResult<Value>,
) -> Option<Seq<char>> {
    if spec_offers_uri_list(holds_content, listing) {
        match uri_list {
            Ok(Value::String(text)) => spec_name_from_url_text(text@),
            _ => None,
        }
    } else {
        None
    }
}

/// The indices of the items of a source that reports `count` items:
/// `0, 1, ..` up to `count - 1`; none for a count that is not positive.
pub fn items_of_count(count: i32) -> (items: Vec<i64>)
    ensures
        items@ == spec_items(count),
{
    let mut items: Vec<i64> = Vec::new();
    let mut i: i32 = 0;
    while i < count
        invariant
            0 <= i,
            count <= 0 ==> i == 0,
            count > 0 ==> i <= count,
            items@.len() == i,
            forall|k: int| 0 <= k < i ==> items@[k] == k,
        decreases count - i,
    {
        items.push(i as i64);
        i += 1;
    }
    assert(items@ =~= spec_items(count));
    items
}

/// Reads the elements of a format array one by one: every format in order
/// where all reads succeeded, else the error of the first read that failed.
pub fn collect_formats(elements: &Vec<NativeExtensionsResult<String>>) -> (formats:
    NativeExtensionsResult<Vec<String>>)
    ensures
        collected_as(elements@, formats),
{
    let mut list: Vec<String> = Vec::with_capacity(elements.len());
    let mut i: usize = 0;
    while i < elements.len()
        invariant
            i <= elements.len(),
            list@.len() == i,
            forall|j: int| 0 <= j < i ==> (#[trigger] elements@[j]) is Ok,
            forall|j: int| 0 <= j < i ==> (#[trigger] list@[j])@ == elements@[j]->Ok_0@,
        decreases elements.len() - i,
    {
        match &elements[i] {
            Ok(format) => {
                list.push(format.clone());
            },
            Err(error) => {
                assert(is_first_failure(elements@, i as int));
                return Err(error.clone());
            },
        }
        i += 1;
    }
    assert(list.deep_view() =~= texts_of(elements@));
    Ok(list)
}

/// Whether `format` is among `formats`.
pub fn offers_format(formats: &Vec<String>, format: &str) -> (found: bool)
    ensures
        found == formats.deep_view().contains(format@),
{
    let wanted = format.to_owned();
    let mut i: usize = 0;
    while i < formats.len()
        invariant
            i <= formats.len(),
            wanted@ == format@,
            forall|j: int| 0 <= j < i ==> formats.deep_view()[j] != format@,
        decreases formats.len() - i,
    {
        if formats[i] == wanted {
            assert(formats.deep_view()[i as int] == format@);
            return true;
        }
        i += 1;
    }
    false
}

impl<C, T> PlatformDataReader<C, T> {
    /// The content object that the reader holds.
    pub closed spec fn content(&self) -> Option<C> {
        self.clip_data
    }

    /// The token that the reader keeps alive.
    pub closed spec fn source_token(&self) -> Option<T> {
        self._source_drop_notifier
    }

    /// Whether the reader holds a content object.
    pub open spec fn holds_content(&self) -> bool {
        self.content() is Some
    }

    /// A reader over `clip_data`, or over an empty source where there is
    /// none. `source_drop_notifier` is kept until the reader is dropped and
    /// has no other effect.
    pub fn from_clip_data(clip_data: Option<C>, source_drop_notifier: Option<T>) -> (reader: Self)
        ensures
            reader.content() == clip_data,
            reader.source_token() == source_drop_notifier,
    {
        PlatformDataReader { clip_data, _source_drop_notifier: source_drop_notifier }
    }

    /// A reader over the primary clip of the clipboard service.
    /// `primary_clip` is the outcome of asking the service for it: the
    /// content object, none for an empty clipboard, or the error of the
    /// foreign call that failed on the way. The reader keeps no token.
    pub fn new_clipboard_reader(primary_clip: NativeExtensionsResult<Option<C>>) -> (reader:
        NativeExtensionsResult<Self>)
        ensures
            match primary_clip {
                Ok(clip_data) => reader matches Ok(r) && r.content() == clip_data
                    && r.source_token() is None,
                Err(error) => reader matches Err(e) && e == error,
            },
    {
        match primary_clip {
            Ok(clip_data) => Ok(Self::from_clip_data(clip_data, None)),
            Err(error) => Err(error),
        }
    }

    /// What the completion callback of the foreign helper makes of its
    /// arguments: the message for the context that owns the outstanding
    /// requests, with the handle widened and the payload decoded.
    #[allow(non_snake_case)]
    pub fn Java_com_superlist_super_1native_1extensions_ClipDataHelper_onData(
        handle: i32,
        data: NativeExtensionsResult<ForeignPayload>,
    ) -> (message: CompletionMessage)
        ensures
            message.handle == handle,
            outcome_view(message.result) == spec_decode_outcome(data),
            data matches Err(error) ==> message.result == Err::<Value, NativeExtensionsError>(
                error,
            ),
    {
        completion_message(handle, data)
    }

    /// The content object to make foreign calls on, if the reader holds one.
    pub fn clip_data(&self) -> (content: Option<&C>)
        ensures
            match content {
                Some(c) => self.content() == Some(*c),
                None => self.content() is None,
            },
    {
        self.clip_data.as_ref()
    }

    /// The items of the source. `item_count` is what the content object
    /// reported as its number of items; a reader without a content object
    /// has no items, whatever `item_count` says.
    pub fn get_items_sync(&self, item_count: NativeExtensionsResult<i32>) -> (items:
        NativeExtensionsResult<Vec<i64>>)
        ensures
            items_answer(self.holds_content(), item_count, items),
    {
        match &self.clip_data {
            Some(_) => {
                match item_count {
                    Ok(count) => Ok(items_of_count(count)),
                    Err(error) => Err(error),
                }
            },
            None => Ok(Vec::new()),
        }
    }

    /// The items of the source, as [`PlatformDataReader::get_items_sync`]
    /// gives them.
    pub fn get_items(&self, item_count: NativeExtensionsResult<i32>) -> (items:
        NativeExtensionsResult<Vec<i64>>)
        ensures
            items_answer(self.holds_content(), item_count, items),
    {
        self.get_items_sync(item_count)
    }

    /// The formats of an item, in the order in which the helper listed
    /// them, with nothing sorted and nothing left out. `listing` is what
    /// the helper answered for the item; a reader without a content object
    /// answers with no formats, whatever `listing` says, and so does one
    /// whose helper gave no array.
    pub fn get_formats_for_item_sync(
        &self,
        _item: i64,
        listing: &NativeExtensionsResult<FormatListing>,
    ) -> (formats: NativeExtensionsResult<Vec<String>>)
        ensures
            formats_answer(self.holds_content(), *listing, formats),
    {
        match &self.clip_data {
            Some(_) => {
                match listing {
                    Ok(FormatListing::Array(elements)) => collect_formats(elements),
                    Ok(FormatListing::Null) => Ok(Vec::new()),
                    Err(error) => Err(error.clone()),
                }
            },
            None => Ok(Vec::new()),
        }
    }

    /// The formats of an item, as
    /// [`PlatformDataReader::get_formats_for_item_sync`] gives them.
    pub fn get_formats_for_item(
        &self,
        item: i64,
        listing: &NativeExtensionsResult<FormatListing>,
    ) -> (formats: NativeExtensionsResult<Vec<String>>)
        ensures
            formats_answer(self.holds_content(), *listing, formats),
    {
        self.get_formats_for_item_sync(item, listing)
    }

    /// Whether the item offers the URI-list format, so that its data in
    /// that format is worth fetching for a suggested name.
    pub fn offers_uri_list(&self, item: i64, listing: &NativeExtensionsResult<FormatListing>) -> (b:
        bool)
        ensures
            b == spec_offers_uri_list(self.holds_content(), *listing),
    {
        match self.get_formats_for_item_sync(item, listing) {
            Ok(formats) => {
                let found = offers_format(&formats, MIME_TYPE_URI_LIST);
                proof {
                    if self.holds_content() {
                        match *listing {
                            Ok(FormatListing::Null) => {
                                assert(!formats.deep_view().contains(MIME_TYPE_URI_LIST@));
                            },
                            _ => {},
                        }
                    } else {
                        assert(!formats.deep_view().contains(MIME_TYPE_URI_LIST@));
                    }
                }
                found
            },
            Err(_) => false,
        }
    }

    /// The file name suggested for an item. `listing` is what the helper
    /// answered for the item's formats, `uri_list` the outcome of fetching
    /// the item's data in the URI-list format, which is looked at only
    /// where the item offers that format. The answer is never an error:
    /// whatever fails on the way, no name is suggested.
    pub fn get_suggested_name_for_item(
        &self,
        item: i64,
        listing: &NativeExtensionsResult<FormatListing>,
        uri_list: &NativeExtensionsResult<Value>,
    ) -> (name: NativeExtensionsResult<Option<String>>)
        ensures
            name matches Ok(suggested) && text_view(suggested) == spec_suggested_name(
                self.holds_content(),
                *listing,
                *uri_list,
            ),
    {
        if self.offers_uri_list(item, listing) {
            match uri_list {
                Ok(Value::String(text)) => Ok(name_from_url_text(text.as_str())),
                _ => Ok(None),
            }
        } else {
            Ok(None)
        }
    }

    /// Starts a fetch of an item's data in a format. A reader without a
    /// content object answers at once with the absent value, gives the sink
    /// back and leaves the table alone. Otherwise the sink is entered in
    /// the table under a fresh handle, and the answer names the foreign
    /// fetch to issue. `_progress` is accepted and never looked at.
    pub fn get_data_for_item<S>(
        &self,
        pending: &mut PendingRequests<S>,
        item: i64,
        format: String,
        _progress: Option<Arc<ReadProgress>>,
        sink: S,
    ) -> (request: DataRequest<S>)
        requires
            old(pending).wf(),
            self.holds_content() ==> old(pending).spec_has_free_handle(),
        ensures
            final(pending).wf(),
            !self.holds_content() ==> request == (DataRequest::Ready { value: Value::Null, sink })
                && final(pending).next() == old(pending).next() && final(pending).entries() == old(
                pending,
            ).entries(),
            self.holds_content() ==> request == (DataRequest::<S>::Issued {
                handle: old(pending).next() as i64,
                item,
                format,
            }) && final(pending).next() == old(pending).next() + 1 && !old(
                pending,
            ).entries().contains_key(old(pending).next() as i64) && final(pending).entries() == old(
                pending,
            ).entries().insert(old(pending).next() as i64, sink),
    {
        match &self.clip_data {
            Some(_) => {
                let handle = pending.issue(sink);
                DataRequest::Issued { handle, item, format }
            },
            None => DataRequest::Ready { value: Value::Null, sink },
        }
    }

    /// Concludes the issuing of the foreign fetch for `handle`. Where
    /// issuing failed, the request leaves the table, its sink comes back,
    /// and the error is the outcome of the fetch. Where it succeeded, the
    /// table stays as it is and the request waits for its answer.
    pub fn conclude_issuance<S>(
        &self,
        pending: &mut PendingRequests<S>,
        handle: i64,
        issued: NativeExtensionsResult<()>,
    ) -> (failure: Option<(NativeExtensionsError, Option<S>)>)
        requires
            old(pending).wf(),
        ensures
            final(pending).wf(),
            final(pending).next() == old(pending).next(),
            match issued {
                Ok(_) => failure is None && final(pending).entries() == old(pending).entries(),
                Err(error) => failure == Some(
                    (error, crate::pending::spec_lookup(old(pending).entries(), handle)),
                ) && final(pending).entries() == old(pending).entries().remove(handle),
            },
    {
        match issued {
            Ok(_) => None,
            Err(error) => {
                let sink = pending.withdraw(handle);
                Some((error, sink))
            },
        }
    }

    /// Whether a format of an item is made up by the reader rather than
    /// offered by the source: never.
    pub fn item_format_is_synthetized(&self, _item: i64, _format: &str) -> (synthesized:
        NativeExtensionsResult<bool>)
        ensures
            synthesized == Ok::<bool, NativeExtensionsError>(false),
    {
        Ok(false)
    }

    /// Whether an item can be had as a file in a format: never.
    pub fn can_get_virtual_file_for_item(&self, _item: i64, _format: &str) -> (can:
        NativeExtensionsResult<bool>)
        ensures
            can == Ok::<bool, NativeExtensionsError>(false),
    {
        Ok(false)
    }

    /// Transfers an item as a file into a folder: not offered, so the
    /// answer is always the error that says so.
    pub fn get_virtual_file_for_item(
        &self,
        _item: i64,
        _format: &str,
        _target_folder: PathBuf,
        _progress: Arc<ReadProgress>,
    ) -> (path: NativeExtensionsResult<PathBuf>)
        ensures
            path == Err::<PathBuf, NativeExtensionsError>(
                NativeExtensionsError::UnsupportedOperation,
            ),
    {
        Err(NativeExtensionsError::UnsupportedOperation)
    }
}

/// A request that was entered under a handle not in the table, and that
/// left the table again because issuing its fetch failed, leaves the table
/// with exactly the entries it had before the request.
pub proof fn law_failed_issuance_leaves_no_entry<S>(table: PendingRequests<S>, sink: S)
    requires
        table.wf(),
    ensures
        !table.entries().contains_key(table.next() as i64),
        table.entries().insert(table.next() as i64, sink).remove(table.next() as i64)
            == table.entries(),
{
    let handle = table.next() as i64;
    assert(table.entries().insert(handle, sink).remove(handle) =~= table.entries());
}

} // verus!
