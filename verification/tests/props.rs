use self_monad::{SelfMonad, SelfMonadMut, SelfMonadOnce, SelfMonadOwner};

#[test]
fn repeat_view_consistent() {
    let m = SelfMonad::new(String::from("hello"), |s: &String| &s[0..2]);
    assert_eq!("he", m.as_ref());
    assert_eq!("he", m.as_ref());
    assert_eq!("he", m.as_ref());
}

#[test]
fn once_view_correct_on_first_call() {
    let mut m = SelfMonadOnce::new(String::from("hello"), |s: &String| &s[0..2]);
    assert_eq!("he", m.as_ref());
}

#[test]
fn once_mut_view_writes_through() {
    let mut m = SelfMonadOnce::new_mut(String::from("hello"), |s: &mut String| &mut s[0..2]);
    let v = m.as_mut();
    assert_eq!("he", v);
    v.make_ascii_uppercase();
    assert_eq!(m.owner(), "HEllo");
}

#[test]
fn repeat_mut_view_writes_through() {
    let mut m = SelfMonad::new_mut(String::from("hello"), |s: &mut String| &mut s[0..2]);
    let v = m.as_mut();
    assert_eq!("he", v);
    v.make_ascii_uppercase();
    assert_eq!(m.owner(), "HEllo");
}

#[test]
fn stateful_mut_view_writes_through() {
    let mut m = SelfMonadMut::new_mut(String::from("hello"), |s: &mut String| &mut s[0..2]);
    let v = m.as_mut();
    assert_eq!("he", v);
    v.make_ascii_uppercase();
    assert_eq!(m.owner(), "HEllo");
}

#[test]
fn stateful_counter_advances() {
    let mut count: usize = 0;
    let mut m = SelfMonadMut::new(String::from("hello"), move |s: &String| {
        count += 1;
        &s[0..count]
    });
    assert_eq!("h", m.as_ref());
    assert_eq!("he", m.as_ref());
    assert_eq!("hel", m.as_ref());
}

#[test]
fn once_owner_round_trip() {
    let m = SelfMonadOnce::new(String::from("hello"), |s: &String| s);
    assert_eq!(m.owner_into(), "hello");
}

#[test]
fn repeat_owner_round_trip() {
    let m = SelfMonad::new(String::from("hello"), |s: &String| s);
    assert_eq!(m.owner_into(), "hello");
}

#[test]
fn stateful_owner_round_trip() {
    let m = SelfMonadMut::new(String::from("hello"), |s: &String| s);
    assert_eq!(m.owner_into(), "hello");
}

#[test]
fn once_owner_access_never_runs_step() {
    let mut m = SelfMonadOnce::new(String::from("hello"), |_s: &String| -> &String {
        panic!("the step must not run")
    });
    assert_eq!(m.owner(), "hello");
    m.owner_mut().push('!');
    assert_eq!(m.owner(), "hello!");
    assert_eq!(m.owner_into(), "hello!");
}

#[test]
fn repeat_owner_access_never_runs_step() {
    let mut m = SelfMonad::new(String::from("hello"), |_s: &String| -> &String {
        panic!("the step must not run")
    });
    assert_eq!(m.owner(), "hello");
    m.owner_mut().push('!');
    assert_eq!(m.owner(), "hello!");
    assert_eq!(m.owner_into(), "hello!");
}

#[test]
fn stateful_owner_access_never_runs_step() {
    let mut m = SelfMonadMut::new(String::from("hello"), |_s: &String| -> &String {
        panic!("the step must not run")
    });
    assert_eq!(m.owner(), "hello");
    m.owner_mut().push('!');
    assert_eq!(m.owner(), "hello!");
    assert_eq!(m.owner_into(), "hello!");
}

#[test]
fn owner_mut_then_materialize_sees_new_owner() {
    let mut m = SelfMonad::new(String::from("hello"), |s: &String| &s[0..2]);
    *m.owner_mut() = String::from("woods");
    assert_eq!("wo", m.as_ref());
}
