use singular::{Clear, SingularField};

#[derive(Default, Debug, Clone, PartialEq)]
struct Foo {
    b: i64,
}

impl Clear for Foo {
    fn is_cleared(&self) -> bool {
        self.b == 0
    }

    fn lemma_default_is_cleared(_v: Self) {}

    fn lemma_cleared_unique(_a: Self, _b: Self) {}

    fn clear(&mut self) {
        self.b = 0;
    }
}

#[derive(Default, Debug, PartialEq)]
struct Record {
    count: u32,
}

impl Clear for Record {
    fn is_cleared(&self) -> bool {
        self.count == 0
    }

    fn lemma_default_is_cleared(_v: Self) {}

    fn lemma_cleared_unique(_a: Self, _b: Self) {}

    fn clear(&mut self) {
        self.count = 0;
    }
}

#[test]
fn test_set_default_clears() {
    let mut x = SingularField::some(Foo { b: 10 });
    x.clear();
    x.set_default();
    assert_eq!(0, x.get_ref().b);

    x.get_mut_ref().b = 11;
    // without clear
    x.set_default();
    assert_eq!(0, x.get_ref().b);
}

#[test]
fn cleared_state_after_reset() {
    let mut x = SingularField::some(Foo { b: 10 });
    x.clear();
    assert!(x.set_default().is_cleared());
    assert!(Foo::default().is_cleared());
}

#[test]
fn some_is_present_and_unwraps_to_value() {
    let f = SingularField::some(42u32);
    assert!(f.is_some());
    assert!(!f.is_none());
    assert_eq!(f.unwrap(), 42);
}

#[test]
fn none_is_absent() {
    let f: SingularField<u32> = SingularField::none();
    assert!(!f.is_some());
    assert!(f.is_none());
    let d: SingularField<u32> = SingularField::default();
    assert!(d.is_none());
}

#[test]
fn option_round_trip_some_and_none() {
    assert_eq!(SingularField::from_option(Some(5u8)).into_option(), Some(5u8));
    assert_eq!(SingularField::<u8>::from_option(None).into_option(), None);
}

#[test]
fn clear_twice_same_as_once() {
    let mut once = SingularField::some(Foo { b: 3 });
    once.clear();
    let mut twice = SingularField::some(Foo { b: 3 });
    twice.clear();
    twice.clear();
    assert!(once.is_none());
    assert!(twice.is_none());
    assert!(once == twice);
    assert_eq!(twice.into_option(), None);
}

#[test]
fn reuse_after_clear_reads_default() {
    let mut f: SingularField<Record> = SingularField::none();
    {
        let r = f.set_default();
        assert_eq!(r.count, 0);
        r.count = 7;
    }
    assert!(f.is_some());
    assert_eq!(f.get_ref().count, 7);
    f.clear();
    assert!(f.is_none());
    let r = f.set_default();
    assert_eq!(r.count, 0);
    assert!(f.is_some());
    assert_eq!(f.get_ref().count, 0);
}

#[test]
fn cleared_field_equals_empty() {
    let mut f = SingularField::some(Foo { b: 9 });
    f.clear();
    let e: SingularField<Foo> = SingularField::none();
    assert!(f == e);
    assert!(f != SingularField::some(Foo { b: 9 }));
    assert!(SingularField::some(Foo { b: 9 }) == SingularField::some(Foo { b: 9 }));
    assert!(SingularField::some(Foo { b: 9 }) != SingularField::some(Foo { b: 8 }));
}

#[test]
fn take_present_leaves_absent() {
    let mut f = SingularField::some(Foo { b: 4 });
    assert_eq!(f.take(), Some(Foo { b: 4 }));
    assert!(f.is_none());
    assert_eq!(f.take(), None);
    assert_eq!(f.set_default().b, 0);
    assert!(f.is_some());
}

#[test]
fn map_on_absent_never_calls() {
    let f: SingularField<u32> = SingularField::none();
    let g: SingularField<String> = f.map(|_| -> String { panic!("transform ran on an absent field") });
    assert!(g.is_none());
    let h = SingularField::some(20u32).map(|v| v + 1);
    assert_eq!(h.unwrap(), 21);
}

#[test]
fn as_slice_length_follows_presence() {
    let e: SingularField<u32> = SingularField::none();
    assert_eq!(e.as_slice().len(), 0);
    let p = SingularField::some(6u32);
    assert_eq!(p.as_slice().len(), 1);
    assert_eq!(p.as_slice()[0], *p.get_ref());
    assert_eq!(p.as_slice(), &[6u32][..]);
    let mut c = SingularField::some(6u32);
    c.clear();
    assert_eq!(c.as_slice().len(), 0);
}

#[test]
fn as_mut_slice_writes_value() {
    let mut p = SingularField::some(6u32);
    {
        let s = p.as_mut_slice();
        assert_eq!(s.len(), 1);
        s[0] = 60;
    }
    assert_eq!(p.unwrap(), 60);
    let mut e: SingularField<u32> = SingularField::none();
    assert_eq!(e.as_mut_slice().len(), 0);
}

#[test]
fn iter_yields_zero_or_one() {
    let e: SingularField<u32> = SingularField::none();
    assert_eq!(e.iter().count(), 0);
    let p = SingularField::some(3u32);
    let items: Vec<&u32> = p.iter().collect();
    assert_eq!(items, vec![&3u32]);
    assert_eq!(p.iter().count(), 1);
}

#[test]
fn mut_iter_changes_value() {
    let mut p = SingularField::some(3u32);
    for v in p.mut_iter() {
        *v += 10;
    }
    assert_eq!(*p.get_ref(), 13);
    assert_eq!(p.mut_iter().count(), 1);
    let mut e: SingularField<u32> = SingularField::none();
    assert_eq!(e.mut_iter().count(), 0);
}

#[test]
fn as_ref_and_as_mut() {
    let mut p = SingularField::some(1u32);
    assert_eq!(p.as_ref(), Some(&1u32));
    if let Some(v) = p.as_mut() {
        *v = 2;
    }
    assert_eq!(p.as_ref(), Some(&2u32));
    *p.get_mut_ref() = 5;
    assert_eq!(*p.get_ref(), 5);
    p.clear();
    assert_eq!(p.as_ref(), None);
    assert!(p.as_mut().is_none());
}

#[test]
fn unwrap_or_and_or_else() {
    assert_eq!(SingularField::some(1u32).unwrap_or(9), 1);
    assert_eq!(SingularField::<u32>::none().unwrap_or(9), 9);
    assert_eq!(SingularField::some(1u32).unwrap_or_else(|| panic!("fallback ran on a present field")), 1);
    assert_eq!(SingularField::<u32>::none().unwrap_or_else(|| 8), 8);
    let mut c = SingularField::some(1u32);
    c.clear();
    assert_eq!(c.unwrap_or(4), 4);
}

#[test]
fn unwrap_or_default_three_ways() {
    assert_eq!(SingularField::some(Foo { b: 5 }).unwrap_or_default(), Foo { b: 5 });
    let mut retained = SingularField::some(Foo { b: 5 });
    retained.clear();
    assert_eq!(retained.unwrap_or_default(), Foo { b: 0 });
    assert_eq!(SingularField::<Foo>::none().unwrap_or_default(), Foo { b: 0 });
}

#[test]
fn clone_copies_logical_value_only() {
    let p = SingularField::some(Foo { b: 2 });
    let q = p.clone();
    assert_eq!(q.into_option(), Some(Foo { b: 2 }));
    let mut c = SingularField::some(Foo { b: 2 });
    c.clear();
    let mut d = c.clone();
    assert!(d.is_none());
    // the copy has no allocation to reuse: it builds a fresh default value
    assert_eq!(d.set_default().b, 0);
}

#[test]
fn ordering_puts_absent_first() {
    let e: SingularField<u32> = SingularField::none();
    let a = SingularField::some(1u32);
    let b = SingularField::some(2u32);
    assert!(e < a);
    assert!(a < b);
    assert!(!(b < a));
    assert_eq!(e.partial_cmp(&e), Some(std::cmp::Ordering::Equal));
    assert_eq!(b.partial_cmp(&e), Some(std::cmp::Ordering::Greater));
}

#[test]
fn debug_string_shows_presence() {
    assert_eq!(SingularField::some(7u32).to_debug_string(), "Some(7)");
    assert_eq!(SingularField::<u32>::none().to_debug_string(), "None");
    let mut c = SingularField::some(7u32);
    c.clear();
    assert_eq!(c.to_debug_string(), "None");
}

#[test]
fn clear_on_option() {
    let mut o = Some(3u8);
    Clear::clear(&mut o);
    assert_eq!(o, None);
    let mut f: SingularField<Option<u8>> = SingularField::some(Some(2));
    f.clear();
    assert_eq!(*f.set_default(), None);
    let mut g: SingularField<Option<u8>> = SingularField::some(Some(2));
    g.clear();
    assert_eq!(g.unwrap_or_default(), None);
}

struct Faulty;

impl std::fmt::Debug for Faulty {
    fn fmt(&self, _f: &mut std::fmt::Formatter<'_>) -> std::fmt::Result {
        Err(std::fmt::Error)
    }
}

#[test]
fn debug_string_survives_failing_debug() {
    let s = SingularField::some(Faulty).to_debug_string();
    assert!(s.starts_with("Some("));
    assert!(s.ends_with(')'));
}
