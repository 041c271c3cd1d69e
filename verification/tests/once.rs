use self_monad::SelfMonadOnce;
use std::borrow::BorrowMut;

#[test]
fn once_pointer() {
    let mut m = SelfMonadOnce::new(String::from("hello"), |s: &String| &s[0..2]);
    assert_eq!("he", m.deref());
}

#[test]
fn once_closure() {
    let c: Box<dyn FnOnce(&String) -> &str> = Box::new(|s| &s[0..2]);
    let mut m = SelfMonadOnce::new(String::from("hello"), c);
    assert_eq!("he", m.deref());
}

#[test]
fn once_as_ref() {
    let mut m = SelfMonadOnce::new(String::from("hello"), |s: &String| &s[0..2]);
    assert_eq!("he", m.as_ref());
}

#[test]
fn once_closure_as_mut() {
    let c: Box<dyn FnOnce(&mut String) -> &mut str> = Box::new(|s| s[0..2].borrow_mut());
    let mut m = SelfMonadOnce::new_mut(String::from("hello"), c);
    assert_eq!("he", m.as_mut());
}
