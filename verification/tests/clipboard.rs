use clipipe::clipboard::{copied, Data, Error, ErrorChain, ErrorDetail};

fn lock_failure() -> ErrorChain {
    ErrorChain::caused_by(
        "could not open the clipboard".to_string(),
        ErrorChain::root("access denied".to_string()),
    )
}

#[test]
fn detail_messages() {
    assert_eq!(ErrorDetail::NoDisplayServer.message(), "no display server available");
    assert_eq!(ErrorDetail::InvalidUtf8.message(), "invalid UTF-8");
    assert_eq!(ErrorDetail::System.message(), "system error");
}

#[test]
fn error_without_source() {
    let error = Error::new(ErrorDetail::NoDisplayServer);
    assert_eq!(error.detail(), ErrorDetail::NoDisplayServer);
    assert_eq!(error.message(), "no display server available");
    assert!(error.source().is_none());
    assert_eq!(
        error.into_chain(),
        ErrorChain { message: "no display server available".to_string(), source: None }
    );
}

#[test]
fn error_with_source_keeps_the_chain() {
    let error = Error::new_with_source(ErrorDetail::InvalidUtf8, lock_failure());
    assert_eq!(error.detail(), ErrorDetail::InvalidUtf8);
    assert_eq!(error.message(), "invalid UTF-8");
    assert_eq!(error.source(), Some(&lock_failure()));
    let chain = error.into_chain();
    assert_eq!(chain.message, "invalid UTF-8");
    let first = chain.source.expect("the cause is kept");
    assert_eq!(first.message, "could not open the clipboard");
    let root = first.source.expect("the cause of the cause is kept");
    assert_eq!(root.message, "access denied");
    assert!(root.source.is_none());
}

#[test]
fn system_error_is_a_system_detail_with_its_cause() {
    let error = Error::system(lock_failure());
    assert_eq!(error, Error::new_with_source(ErrorDetail::System, lock_failure()));
    assert_eq!(error.message(), "system error");
}

#[test]
fn chain_constructors() {
    let root = ErrorChain::root("below".to_string());
    assert_eq!(root, ErrorChain { message: "below".to_string(), source: None });
    let chain = ErrorChain::caused_by("above".to_string(), root);
    assert_eq!(
        chain,
        ErrorChain {
            message: "above".to_string(),
            source: Some(Box::new(ErrorChain { message: "below".to_string(), source: None })),
        }
    );
}

#[test]
fn empty_data_has_no_text_and_no_mime() {
    assert_eq!(Data::empty(), Data { data: String::new(), mime: None });
}

#[test]
fn copied_passes_success_on() {
    assert_eq!(copied(Ok(())), Ok(()));
}

#[test]
fn copied_turns_a_failure_into_a_system_error() {
    assert_eq!(copied(Err(lock_failure())), Err(Error::system(lock_failure())));
}
