use auth_client::client::ClientContext;
use auth_client::error::SdkError;
use auth_client::plan::{Action, AuthorizedRequest, Event, TokenRequest};
use auth_client::token::TokenResponse;
use std::marker::PhantomData;

struct Probe<T>(PhantomData<T>);

trait NotPrintable {
    fn printable(&self) -> bool {
        false
    }
}

impl<T> NotPrintable for Probe<T> {}

impl<T: std::fmt::Debug> Probe<T> {
    fn printable(&self) -> bool {
        true
    }
}

#[test]
fn probe_tells_printable_types_apart() {
    assert!(Probe::<SdkError>(PhantomData).printable());
    assert!(Probe::<String>(PhantomData).printable());
}

#[test]
fn context_cannot_be_debug_printed() {
    assert!(!Probe::<ClientContext>(PhantomData).printable());
}

#[test]
fn token_record_cannot_be_debug_printed() {
    assert!(!Probe::<TokenResponse>(PhantomData).printable());
}

#[test]
fn requests_and_steps_cannot_be_debug_printed() {
    assert!(!Probe::<TokenRequest>(PhantomData).printable());
    assert!(!Probe::<AuthorizedRequest>(PhantomData).printable());
    assert!(!Probe::<Event>(PhantomData).printable());
    assert!(!Probe::<Action>(PhantomData).printable());
}
