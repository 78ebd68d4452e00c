use std::path::PathBuf;
use std::sync::Arc;

use clip_reader::error::NativeExtensionsError;
use clip_reader::pending::{CompletionMessage, PendingRequests};
use clip_reader::reader::{
    collect_formats, items_of_count, offers_format, DataRequest, FormatListing,
    PlatformDataReader, ReadProgress,
};
use clip_reader::value::Value;

fn failure(text: &str) -> NativeExtensionsError {
    NativeExtensionsError::OtherError(text.to_owned())
}

fn empty_reader() -> PlatformDataReader<&'static str, ()> {
    PlatformDataReader::from_clip_data(None, None)
}

fn clip_reader() -> PlatformDataReader<&'static str, ()> {
    PlatformDataReader::from_clip_data(Some("clip"), None)
}

#[test]
fn from_clip_data_keeps_the_content_object() {
    assert_eq!(clip_reader().clip_data(), Some(&"clip"));
    assert_eq!(empty_reader().clip_data(), None);
}

#[test]
fn source_token_lives_as_long_as_the_reader() {
    let token = Arc::new(5u8);
    let reader: PlatformDataReader<u8, Arc<u8>> =
        PlatformDataReader::from_clip_data(Some(1), Some(token.clone()));
    assert_eq!(Arc::strong_count(&token), 2);
    drop(reader);
    assert_eq!(Arc::strong_count(&token), 1);
}

#[test]
fn new_clipboard_reader_wraps_the_primary_clip() {
    let reader: PlatformDataReader<&'static str, ()> =
        PlatformDataReader::new_clipboard_reader(Ok(Some("primary"))).expect("a reader");
    assert_eq!(reader.clip_data(), Some(&"primary"));
    let reader: PlatformDataReader<&'static str, ()> =
        PlatformDataReader::new_clipboard_reader(Ok(None)).expect("a reader");
    assert_eq!(reader.clip_data(), None);
    let refused: Result<PlatformDataReader<&'static str, ()>, _> =
        PlatformDataReader::new_clipboard_reader(Err(failure("JAVA_VM not set")));
    match refused {
        Err(error) => assert_eq!(error, failure("JAVA_VM not set")),
        Ok(_) => panic!("the error of the lookup is the answer"),
    }
}

#[test]
fn items_of_count_is_the_index_range() {
    assert_eq!(items_of_count(3), vec![0, 1, 2]);
    assert_eq!(items_of_count(1), vec![0]);
    assert_eq!(items_of_count(0), Vec::<i64>::new());
    assert_eq!(items_of_count(-5), Vec::<i64>::new());
    assert_eq!(items_of_count(i32::MIN), Vec::<i64>::new());
    let many = items_of_count(1000);
    assert_eq!(many.len(), 1000);
    assert_eq!(many[999], 999);
}

#[test]
fn get_items_of_three() {
    assert_eq!(clip_reader().get_items_sync(Ok(3)), Ok(vec![0, 1, 2]));
    assert_eq!(clip_reader().get_items(Ok(3)), Ok(vec![0, 1, 2]));
}

#[test]
fn get_items_of_empty_clipboard() {
    assert_eq!(empty_reader().get_items_sync(Ok(3)), Ok(Vec::new()));
    assert_eq!(empty_reader().get_items(Ok(0)), Ok(Vec::new()));
    assert_eq!(empty_reader().get_items_sync(Err(failure("unused"))), Ok(Vec::new()));
}

#[test]
fn get_items_propagates_the_foreign_error() {
    assert_eq!(clip_reader().get_items_sync(Err(failure("JNI: no method"))), Err(failure("JNI: no method")));
    assert_eq!(clip_reader().get_items(Err(failure("JNI: no method"))), Err(failure("JNI: no method")));
}

#[test]
fn collect_formats_keeps_order_and_duplicates() {
    let elements = vec![
        Ok("text/plain".to_owned()),
        Ok("image/png".to_owned()),
        Ok("text/plain".to_owned()),
    ];
    assert_eq!(
        collect_formats(&elements),
        Ok(vec!["text/plain".to_owned(), "image/png".to_owned(), "text/plain".to_owned()])
    );
    assert_eq!(collect_formats(&Vec::new()), Ok(Vec::new()));
}

#[test]
fn collect_formats_stops_at_the_first_error() {
    let elements = vec![
        Ok("text/plain".to_owned()),
        Err(failure("first")),
        Ok("image/png".to_owned()),
        Err(failure("second")),
    ];
    assert_eq!(collect_formats(&elements), Err(failure("first")));
}

#[test]
fn offers_format_looks_for_an_exact_match() {
    let formats = vec!["text/plain".to_owned(), "text/uri-list".to_owned()];
    assert!(offers_format(&formats, "text/uri-list"));
    assert!(offers_format(&formats, "text/plain"));
    assert!(!offers_format(&formats, "text/URI-list"));
    assert!(!offers_format(&formats, "text"));
    assert!(!offers_format(&Vec::new(), "text/plain"));
}

#[test]
fn get_formats_in_the_helper_order() {
    let listing = Ok(FormatListing::Array(vec![
        Ok("text/html".to_owned()),
        Ok("text/plain".to_owned()),
    ]));
    let expected = Ok(vec!["text/html".to_owned(), "text/plain".to_owned()]);
    assert_eq!(clip_reader().get_formats_for_item_sync(0, &listing), expected);
    assert_eq!(clip_reader().get_formats_for_item(7, &listing), expected);
}

#[test]
fn get_formats_of_null_array_is_empty() {
    assert_eq!(
        clip_reader().get_formats_for_item_sync(0, &Ok(FormatListing::Null)),
        Ok(Vec::new())
    );
}

#[test]
fn get_formats_propagates_errors() {
    assert_eq!(
        clip_reader().get_formats_for_item_sync(0, &Err(failure("JNI: call"))),
        Err(failure("JNI: call"))
    );
    let listing = Ok(FormatListing::Array(vec![Ok("a/b".to_owned()), Err(failure("element"))]));
    assert_eq!(clip_reader().get_formats_for_item(0, &listing), Err(failure("element")));
}

#[test]
fn get_formats_of_empty_clipboard() {
    let listing = Ok(FormatListing::Array(vec![Ok("text/plain".to_owned())]));
    assert_eq!(empty_reader().get_formats_for_item_sync(0, &listing), Ok(Vec::new()));
    assert_eq!(empty_reader().get_formats_for_item(5, &Err(failure("unused"))), Ok(Vec::new()));
}

#[test]
fn get_data_of_empty_clipboard_is_absent_at_once() {
    let mut pending: PendingRequests<&'static str> = PendingRequests::new();
    let request =
        empty_reader().get_data_for_item(&mut pending, 0, "text/plain".to_owned(), None, "sink");
    match request {
        DataRequest::Ready { value, sink } => {
            assert_eq!(value, Value::Null);
            assert_eq!(sink, "sink");
        }
        DataRequest::Issued { .. } => panic!("nothing is issued without a content object"),
    }
    assert!(pending.is_empty());
    assert_eq!(pending.allocate_handle(), 1);
}

#[test]
fn get_data_registers_and_names_the_fetch() {
    let mut pending: PendingRequests<&'static str> = PendingRequests::new();
    let progress = Some(Arc::new(ReadProgress {}));
    let request =
        clip_reader().get_data_for_item(&mut pending, 2, "text/plain".to_owned(), progress, "sink");
    match request {
        DataRequest::Issued { handle, item, format } => {
            assert_eq!(handle, 1);
            assert_eq!(item, 2);
            assert_eq!(format, "text/plain");
            assert!(pending.is_pending(handle));
        }
        DataRequest::Ready { .. } => panic!("a fetch is issued for a content object"),
    }
    assert_eq!(pending.len(), 1);
}

#[test]
fn concurrent_fetches_complete_independently() {
    let reader = clip_reader();
    let mut pending: PendingRequests<String> = PendingRequests::new();
    let mut handles: Vec<i64> = Vec::new();
    for i in 0..4 {
        let request = reader.get_data_for_item(
            &mut pending,
            i,
            "text/plain".to_owned(),
            None,
            format!("caller-{}", i),
        );
        match request {
            DataRequest::Issued { handle, item, .. } => {
                assert_eq!(item, i);
                assert!(reader.conclude_issuance(&mut pending, handle, Ok(())).is_none());
                handles.push(handle);
            }
            DataRequest::Ready { .. } => panic!("a fetch is issued for a content object"),
        }
    }
    assert_eq!(handles, vec![1, 2, 3, 4]);
    for i in [2usize, 0, 3, 1] {
        let message = CompletionMessage {
            handle: handles[i],
            result: Ok(Value::String(format!("data-{}", i))),
        };
        let delivery = pending.complete(message).expect("outstanding");
        assert_eq!(delivery.sink, format!("caller-{}", i));
        assert_eq!(delivery.result, Ok(Value::String(format!("data-{}", i))));
    }
    assert!(pending.is_empty());
}

#[test]
fn failed_issuance_returns_the_error_and_leaves_no_entry() {
    let reader = clip_reader();
    let mut pending: PendingRequests<&'static str> = PendingRequests::new();
    let request =
        reader.get_data_for_item(&mut pending, 0, "text/plain".to_owned(), None, "caller");
    let handle = match request {
        DataRequest::Issued { handle, .. } => handle,
        DataRequest::Ready { .. } => panic!("a fetch is issued for a content object"),
    };
    let outcome = reader.conclude_issuance(&mut pending, handle, Err(failure("JNI: new_string")));
    assert_eq!(outcome, Some((failure("JNI: new_string"), Some("caller"))));
    assert_eq!(pending.len(), 0);
    assert!(pending.is_empty());
    assert!(!pending.is_pending(handle));
    let late = CompletionMessage { handle, result: Ok(Value::Null) };
    assert!(pending.complete(late).is_none());
}

#[test]
fn failed_issuance_leaves_other_requests_alone() {
    let reader = clip_reader();
    let mut pending: PendingRequests<&'static str> = PendingRequests::new();
    let first = pending.issue("first");
    let request = reader.get_data_for_item(&mut pending, 1, "a/b".to_owned(), None, "second");
    let handle = match request {
        DataRequest::Issued { handle, .. } => handle,
        DataRequest::Ready { .. } => panic!("a fetch is issued for a content object"),
    };
    assert_ne!(handle, first);
    assert!(reader.conclude_issuance(&mut pending, handle, Err(failure("x"))).is_some());
    assert_eq!(pending.len(), 1);
    assert!(pending.is_pending(first));
}

#[test]
fn successful_issuance_keeps_the_request_waiting() {
    let reader = clip_reader();
    let mut pending: PendingRequests<&'static str> = PendingRequests::new();
    let handle = pending.issue("caller");
    assert_eq!(reader.conclude_issuance(&mut pending, handle, Ok(())), None);
    assert!(pending.is_pending(handle));
}

#[test]
fn no_format_is_synthesized() {
    assert_eq!(clip_reader().item_format_is_synthetized(0, "text/plain"), Ok(false));
    assert_eq!(empty_reader().item_format_is_synthetized(-1, ""), Ok(false));
}

#[test]
fn virtual_files_are_not_offered() {
    assert_eq!(clip_reader().can_get_virtual_file_for_item(0, "text/plain"), Ok(false));
    assert_eq!(empty_reader().can_get_virtual_file_for_item(12, "image/png"), Ok(false));
}

#[test]
fn virtual_file_transfer_is_unsupported() {
    let progress = Arc::new(ReadProgress {});
    let result = clip_reader().get_virtual_file_for_item(
        0,
        "text/plain",
        PathBuf::from("/tmp"),
        progress.clone(),
    );
    assert_eq!(result, Err(NativeExtensionsError::UnsupportedOperation));
    let result =
        empty_reader().get_virtual_file_for_item(9, "image/png", PathBuf::new(), progress);
    match result {
        Err(error) => assert!(error.is_unsupported()),
        Ok(_) => panic!("no path is ever returned"),
    }
}
