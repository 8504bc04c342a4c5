use std::cell::Cell;

use actix_web_lab::middleware::{map_response_body, Exchange, MapResBodyService};

#[derive(Debug, Clone, PartialEq, Eq)]
struct Head {
    status: u16,
    headers: Vec<(String, String)>,
}

fn head() -> Head {
    Head { status: 200, headers: vec![("content-type".to_owned(), "text/plain".to_owned())] }
}

type Res = Result<(u32, Head, String), String>;

/// Drives one exchange: the inner layer answers `inner`, and the transform's "future" is
/// already resolved, so it is handed straight back.
fn drive<F, S>(svc: &MapResBodyService<S, F>, inner: Res) -> Res
where
    F: Fn(String) -> Result<String, String>,
{
    let mut x: Exchange<F, u32, Head, String> = svc.begin();
    assert!(x.is_forwarding());
    let fut = x.inner_ready(inner)?;
    assert!(x.is_transforming());
    let out = x.transform_ready(fut);
    assert!(x.is_complete());
    out
}

#[test]
fn identity_transform_keeps_the_response() {
    let mw = map_response_body(|b: String| Ok(b));
    let svc = mw.new_transform(());
    let inner: Res = Ok((7, head(), "hello world".to_owned()));
    assert_eq!(drive(&svc, inner.clone()), inner);
}

#[test]
fn replacement_transform_sets_the_body() {
    let mw = map_response_body(|_b: String| Ok("foo".to_owned()));
    let svc = mw.new_transform(());
    for body in ["", "bar", "a much longer body than foo"] {
        let out = drive(&svc, Ok((1, head(), body.to_owned())));
        assert_eq!(out, Ok((1, head(), "foo".to_owned())));
    }
}

#[test]
fn inner_error_skips_the_transform() {
    let calls = Cell::new(0u32);
    let mw = map_response_body(|b: String| {
        calls.set(calls.get() + 1);
        Ok(b)
    });
    let svc = mw.new_transform(());
    let out = drive(&svc, Err("inner failed".to_owned()));
    assert_eq!(out, Err("inner failed".to_owned()));
    assert_eq!(calls.get(), 0);
}

#[test]
fn transform_error_is_propagated() {
    let mw = map_response_body(|_b: String| Err("transform failed".to_owned()));
    let svc = mw.new_transform(());
    let out = drive(&svc, Ok((3, head(), "body".to_owned())));
    assert_eq!(out, Err("transform failed".to_owned()));
}

#[test]
fn feels_good() {
    let a = map_response_body(|b: String| Ok(b));
    let b = map_response_body(|b: String| Ok(b));
    let c = map_response_body(|_b: String| Ok("foo".to_owned()));
    let (sa, sb, sc) = (a.new_transform(()), b.new_transform(()), c.new_transform(()));
    let handler: Res = Ok((0, head(), String::new()));
    let body = drive(&sc, drive(&sb, drive(&sa, handler))).unwrap().2;
    assert_eq!(body, "foo");
}

#[test]
fn transform_invoked_exactly_once() {
    let calls = Cell::new(0u32);
    let mw = map_response_body(|b: String| {
        calls.set(calls.get() + 1);
        Ok(b + "!")
    });
    let svc = mw.new_transform(());
    let out = drive(&svc, Ok((2, head(), "hi".to_owned())));
    assert_eq!(out, Ok((2, head(), "hi!".to_owned())));
    assert_eq!(calls.get(), 1);
}

#[test]
fn dropped_while_transforming_invokes_nothing_more() {
    let calls = Cell::new(0u32);
    let mw = map_response_body(|b: String| {
        calls.set(calls.get() + 1);
        Ok::<String, String>(b)
    });
    let svc = mw.new_transform(());
    let mut x: Exchange<_, u32, Head, String> = svc.begin();
    let _fut = x.inner_ready(Ok::<_, String>((4, head(), "x".to_owned()))).unwrap();
    assert!(x.is_transforming());
    drop(x);
    assert_eq!(calls.get(), 1);
    let mut again: Exchange<_, u32, Head, String> = svc.begin();
    assert!(again.is_forwarding());
    assert_eq!(calls.get(), 1);
    let _ = again.inner_ready(Err::<(u32, Head, String), String>("gone".to_owned()));
    assert!(again.is_complete());
    assert_eq!(calls.get(), 1);
}

#[test]
fn factory_is_shareable() {
    let mw = map_response_body(|_b: String| Ok::<String, String>("z".to_owned()));
    let copy = mw.clone();
    let s1 = mw.new_transform(10u8);
    let s2 = copy.new_transform(20u8);
    assert_eq!(*s1.service(), 10);
    assert_eq!(*s2.service(), 20);
    assert_eq!(drive(&s2, Ok((5, head(), "q".to_owned()))), Ok((5, head(), "z".to_owned())));
}
