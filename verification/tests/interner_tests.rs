use phalcom::interner::{Interner, Symbol};

#[test]
fn intern_gives_equal_symbols_for_equal_strings() {
    let mut interner = Interner::with_capacity(8);
    let a = interner.intern("alpha");
    let b = interner.intern("beta");
    let again = interner.intern("alpha");
    assert_eq!(a, again);
    assert_ne!(a, b);
    assert_eq!(interner.lookup(a), "alpha");
    assert_eq!(interner.lookup(b), "beta");
    assert_eq!(interner.len(), 2);
}

#[test]
fn interning_the_string_of_a_symbol_gives_the_symbol() {
    let mut interner = Interner::with_capacity(0);
    let names = ["", "a", "b", "longer name", "+(_)", "a"];
    let mut symbols = Vec::new();
    for name in names {
        symbols.push(interner.intern(name));
    }
    assert_eq!(interner.len(), 5);
    for (name, symbol) in names.iter().zip(symbols.iter()) {
        assert_eq!(interner.lookup(*symbol), *name);
        let text = interner.lookup(*symbol).to_string();
        assert_eq!(interner.intern(&text), *symbol);
        assert_eq!(interner.find(name), Some(*symbol));
    }
    assert_eq!(interner.len(), 5);
    assert_eq!(interner.find("missing"), None);
    assert_eq!(symbols[0].0, 0);
    assert_eq!(symbols[5], symbols[1]);
}

#[test]
fn symbols_are_issued_in_order() {
    let mut interner = Interner::with_capacity(1 << 20);
    for i in 0..1000u32 {
        let symbol = interner.intern(&format!("name{}", i));
        assert_eq!(symbol.0, i);
    }
    assert_eq!(interner.lookup(phalcom::interner::Symbol(999)), "name999");
}

#[test]
fn try_intern_gives_the_symbol_of_a_string() {
    let mut interner = Interner::with_capacity(4);
    let a = interner.try_intern("alpha").unwrap();
    let b = interner.try_intern("").unwrap();
    assert_eq!(a, Symbol(0));
    assert_eq!(b, Symbol(1));
    assert_eq!(interner.try_intern("alpha"), Some(a));
    assert_eq!(interner.intern("alpha"), a);
    assert_eq!(interner.len(), 2);
    assert_eq!(interner.lookup(a), "alpha");
    assert_eq!(interner.lookup(b), "");
}
