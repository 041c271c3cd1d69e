use self_monad::SelfMonadMut;
use std::borrow::BorrowMut;

#[test]
fn mut_pointer_twice() {
    let mut m = SelfMonadMut::new(String::from("hello"), |s: &String| &s[0..2]);
    assert_eq!("he", m.deref());
    assert_eq!("he", m.deref());
}

#[test]
fn mut_closure() {
    let c: Box<dyn FnMut(&String) -> &str> = Box::new(|s| &s[0..2]);
    let mut m = SelfMonadMut::new(String::from("hello"), c);
    assert_eq!("he", m.deref());
}

#[test]
fn mut_closure_as_mut() {
    let c: Box<dyn FnMut(&mut String) -> &mut str> = Box::new(|s| s[0..2].borrow_mut());
    let mut m = SelfMonadMut::new_mut(String::from("hello"), c);
    assert_eq!("he", m.as_mut());
}

#[test]
fn mut_as_ref() {
    let mut m = SelfMonadMut::new(String::from("hello"), |s: &String| &s[0..2]);
    assert_eq!("he", m.as_ref());
}
