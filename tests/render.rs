use static_format::{Chain, Char, DisplaySwapDebug, Nil, Render, Repeat};

#[test]
fn word() {
    let word = Char('W', Char('o', Char('r', Char('d', Nil))));
    assert_eq!(word.to_string(), "Word");

    let word: Char<Char<Char<Char<Nil>>>> = Char('W', Char('o', Char('r', Char('d', Nil))));
    assert_eq!(word.to_string(), "Word");
}

#[test]
fn repeat() {
    let word = Char('W', Chain(Repeat::<_, 3>(Char('o', Nil)), Char('r', Char('d', Nil))));
    assert_eq!(word.to_string(), "Wooord");

    let repeated_wo = Char('W', Repeat::<_, 3>(Char('W', Char('o', Nil))));
    assert_eq!(repeated_wo.to_string(), "WWoWoWo");
}

#[test]
fn new_line() {
    let word = Char('W', Char('\n', Char('o', Char('r', Char('d', Nil)))));
    assert_eq!(word.to_string(), "W\nord");
}

#[test]
fn display_swap_debug() {
    let word = Char('W', Chain(DisplaySwapDebug(Char('o', Nil)), Char('r', Char('d', Nil))));
    assert_eq!(word.to_string(), "WChar(PhantomData<static_format::Nil>)rd");

    assert_eq!(
        DisplaySwapDebug(DisplaySwapDebug(Char('o', Nil))).to_string(),
        "o"
    );
}

#[test]
fn single_characters_render_literally() {
    assert_eq!(Char('o', Nil).to_string(), "o");
    assert_eq!(Char('\0', Nil).to_string(), "\0");
    assert_eq!(Char('\u{7}', Nil).to_string(), "\u{7}");
    assert_eq!(Char('\t', Nil).to_string(), "\t");
    assert_eq!(Char('é', Nil).to_string(), "é");

    let single: Char = Char('x', Nil);
    assert_eq!(single.to_string(), "x");
}

#[test]
fn nil_renders_nothing() {
    assert_eq!(Nil.to_string(), "");
    assert_eq!(Nil.to_debug_string(), "Nil");
}

#[test]
fn chain_grouping_does_not_matter() {
    let right = Chain(Char('a', Nil), Chain(Char('b', Char('c', Nil)), Char('d', Nil)));
    let left = Chain(Chain(Char('a', Nil), Char('b', Char('c', Nil))), Char('d', Nil));
    assert_eq!(right.to_string(), "abcd");
    assert_eq!(left.to_string(), "abcd");
}

#[test]
fn chain_continues_past_head_end() {
    let joined = Chain(Char('a', Char('b', Nil)), Char('c', Char('d', Nil)));
    assert_eq!(joined.to_string(), "abcd");
}

#[test]
fn nil_is_neutral_in_chain() {
    let x = Char('x', Char('y', Nil));
    assert_eq!(Chain(Char('x', Char('y', Nil)), Nil).to_string(), x.to_string());
    assert_eq!(Chain(Nil, Char('x', Char('y', Nil))).to_string(), "xy");
    assert_eq!(Chain(Nil, Nil).to_string(), "");
}

#[test]
fn repeat_boundaries() {
    assert_eq!(Repeat::<_, 0>(Char('o', Nil)).to_string(), "");
    assert_eq!(Repeat::<_, 1>(Char('o', Char('k', Nil))).to_string(), "ok");
    assert_eq!(Repeat::<_, 3>(Char('o', Nil)).to_string(), "ooo");
    assert_eq!(Repeat::<_, 4>(Char('a', Char('b', Nil))).to_string().len(), 8);
    assert_eq!(Repeat::<_, 5>(Nil).to_string(), "");
    assert_eq!(Repeat::<_, 2>(Repeat::<_, 3>(Char('z', Nil))).to_string(), "zzzzzz");
}

#[test]
fn swap_exchanges_renderings() {
    let swapped = DisplaySwapDebug(Char('o', Nil));
    assert_eq!(swapped.to_string(), "Char(PhantomData<static_format::Nil>)");
    assert_eq!(swapped.to_debug_string(), "o");

    let twice = DisplaySwapDebug(DisplaySwapDebug(Char('o', Nil)));
    assert_eq!(twice.to_string(), "o");
    assert_eq!(twice.to_debug_string(), "Char(PhantomData<static_format::Nil>)");
}

#[test]
fn debug_forms_name_types() {
    assert_eq!(
        Char('a', Char('b', Nil)).to_debug_string(),
        "Char(PhantomData<static_format::Char<static_format::Nil>>)"
    );
    assert_eq!(
        Chain(Nil, Char('b', Nil)).to_debug_string(),
        "Chain(Nil, Char(PhantomData<static_format::Nil>))"
    );
    assert_eq!(
        Repeat::<_, 2>(Char('b', Nil)).to_debug_string(),
        "Repeat(PhantomData<static_format::Char<static_format::Nil>>)"
    );
    assert_eq!(
        Char('a', Chain(Nil, DisplaySwapDebug(Nil))).to_debug_string(),
        "Char(PhantomData<static_format::Chain<static_format::Nil, static_format::DisplaySwapDebug<static_format::Nil>>>)"
    );
    assert_eq!(DisplaySwapDebug(Chain(Nil, Nil)).to_debug_string(), "");
}

#[test]
fn type_paths_spell_repeat_counts_in_decimal() {
    assert_eq!(
        Char('a', Repeat::<Nil, 0>(Nil)).to_debug_string(),
        "Char(PhantomData<static_format::Repeat<static_format::Nil, 0>>)"
    );
    assert_eq!(
        Char('a', Repeat::<Nil, 305>(Nil)).to_debug_string(),
        "Char(PhantomData<static_format::Repeat<static_format::Nil, 305>>)"
    );
    assert_eq!(
        Char('a', Repeat::<Nil, 12>(Nil)).to_debug_string(),
        "Char(PhantomData<static_format::Repeat<static_format::Nil, 12>>)"
    );
}
