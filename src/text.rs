use vstd::prelude::*;

verus! {

/// Relies on `String::push`: the character is appended at the end.
#[verifier::external_body]
fn push_char(out: &mut String, c: char)
    ensures
        final(out)@ == old(out)@.push(c),
{
    out.push(c);
}

/// A value with two renderings: the primary text and a diagnostic form.
pub trait Render: Sized {
    /// The primary rendering.
    spec fn text(&self) -> Seq<char>;

    /// The secondary (diagnostic) rendering.
    spec fn debug_text(&self) -> Seq<char>;

    /// The full path of the type, as a diagnostic form names it.
    spec fn type_path() -> Seq<char>;

    /// Appends the primary rendering to `out`.
    fn write_text(&self, out: &mut String)
        ensures
            final(out)@ == old(out)@ + self.text(),
    ;

    /// Appends the secondary rendering to `out`.
    fn write_debug(&self, out: &mut String)
        ensures
            final(out)@ == old(out)@ + self.debug_text(),
    ;

    /// Appends the path of the type to `out`.
    fn write_type_path(out: &mut String)
        ensures
            final(out)@ == old(out)@ + Self::type_path(),
    ;

    /// The primary rendering as a new string.
    fn to_string(&self) -> (r: String)
        ensures
            r@ == self.text(),
    {
        let mut out = String::new();
        self.write_text(&mut out);
        out
    }

    /// The secondary rendering as a new string.
    fn to_debug_string(&self) -> (r: String)
        ensures
            r@ == self.debug_text(),
    {
        let mut out = String::new();
        self.write_debug(&mut out);
        out
    }
}

/// End of a word: renders as nothing.
pub struct Nil;

impl Render for Nil {
    open spec fn text(&self) -> Seq<char> {
        Seq::empty()
    }

    open spec fn debug_text(&self) -> Seq<char> {
        "Nil"@
    }

    open spec fn type_path() -> Seq<char> {
        "static_format::Nil"@
    }

    fn write_text(&self, out: &mut String) {
        assert(out@ + Seq::<char>::empty() =~= out@);
    }

    fn write_debug(&self, out: &mut String) {
        out.append("Nil");
    }

    fn write_type_path(out: &mut String) {
        out.append("static_format::Nil");
    }
}

/// A character followed by the rendering of its tail; with no tail given, a
/// word of one character. Its diagnostic form names only the tail's type.
pub struct Char<T = Nil>(pub char, pub T);

impl<T: Render> Render for Char<T> {
    open spec fn text(&self) -> Seq<char> {
        seq![self.0] + self.1.text()
    }

    open spec fn debug_text(&self) -> Seq<char> {
        "Char(PhantomData<"@ + T::type_path() + ">)"@
    }

    open spec fn type_path() -> Seq<char> {
        "static_format::Char<"@ + T::type_path() + ">"@
    }

    fn write_text(&self, out: &mut String) {
        push_char(out, self.0);
        self.1.write_text(out);
        assert(out@ =~= old(out)@ + self.text());
    }

    fn write_debug(&self, out: &mut String) {
        out.append("Char(PhantomData<");
        T::write_type_path(out);
        out.append(">)");
        assert(out@ =~= old(out)@ + self.debug_text());
    }

    fn write_type_path(out: &mut String) {
        out.append("static_format::Char<");
        T::write_type_path(out);
        out.append(">");
        assert(out@ =~= old(out)@ + Self::type_path());
    }
}

/// Concatenation: the rendering of the head, then that of the tail.
pub struct Chain<H, T>(pub H, pub T);

impl<H: Render, T: Render> Render for Chain<H, T> {
    open spec fn text(&self) -> Seq<char> {
        self.0.text() + self.1.text()
    }

    open spec fn debug_text(&self) -> Seq<char> {
        "Chain("@ + self.0.debug_text() + ", "@ + self.1.debug_text() + ")"@
    }

    open spec fn type_path() -> Seq<char> {
        "static_format::Chain<"@ + H::type_path() + ", "@ + T::type_path() + ">"@
    }

    fn write_text(&self, out: &mut String) {
        self.0.write_text(out);
        self.1.write_text(out);
        assert(out@ =~= old(out)@ + self.text());
    }

    fn write_debug(&self, out: &mut String) {
        out.append("Chain(");
        self.0.write_debug(out);
        out.append(", ");
        self.1.write_debug(out);
        out.append(")");
        assert(out@ =~= old(out)@ + self.debug_text());
    }

    fn write_type_path(out: &mut String) {
        out.append("static_format::Chain<");
        H::write_type_path(out);
        out.append(", ");
        T::write_type_path(out);
        out.append(">");
        assert(out@ =~= old(out)@ + Self::type_path());
    }
}

/// `s` written `n` times back to back.
pub open spec fn repeat_seq(s: Seq<char>, n: nat) -> Seq<char>
    decreases n,
{
    if n == 0 {
        Seq::empty()
    } else {
        repeat_seq(s, (n - 1) as nat) + s
    }
}

/// The decimal digit for `d`, which is below ten.
pub open spec fn digit_char(d: nat) -> char {
    if d == 0 { '0' }
    else if d == 1 { '1' }
    else if d == 2 { '2' }
    else if d == 3 { '3' }
    else if d == 4 { '4' }
    else if d == 5 { '5' }
    else if d == 6 { '6' }
    else if d == 7 { '7' }
    else if d == 8 { '8' }
    else { '9' }
}

/// The decimal notation of `n`, without leading zeros.
pub open spec fn decimal(n: nat) -> Seq<char>
    decreases n,
{
    if n < 10 {
        seq![digit_char(n)]
    } else {
        decimal(n / 10).push(digit_char(n % 10))
    }
}

/// The character of the decimal digit `d`.
fn digit(d: usize) -> (c: char)
    requires
        d < 10,
    ensures
        c == digit_char(d as nat),
{
    if d == 0 { '0' }
    else if d == 1 { '1' }
    else if d == 2 { '2' }
    else if d == 3 { '3' }
    else if d == 4 { '4' }
    else if d == 5 { '5' }
    else if d == 6 { '6' }
    else if d == 7 { '7' }
    else if d == 8 { '8' }
    else { '9' }
}

/// Appends the decimal notation of `n` to `out`.
fn write_decimal(n: usize, out: &mut String)
    ensures
        final(out)@ == old(out)@ + decimal(n as nat),
    decreases n,
{
    if n >= 10 {
        write_decimal(n / 10, out);
    }
    push_char(out, digit(n % 10));
    assert(out@ =~= old(out)@ + decimal(n as nat));
}

/// The rendering of the inner value, `N` times in a row. The count is part of
/// the type, so it cannot change once the value is composed. The diagnostic
/// form names only the inner value's type.
pub struct Repeat<C, const N: usize>(pub C);

impl<C: Render, const N: usize> Render for Repeat<C, N> {
    open spec fn text(&self) -> Seq<char> {
        repeat_seq(self.0.text(), N as nat)
    }

    open spec fn debug_text(&self) -> Seq<char> {
        "Repeat(PhantomData<"@ + C::type_path() + ">)"@
    }

    open spec fn type_path() -> Seq<char> {
        "static_format::Repeat<"@ + C::type_path() + ", "@ + decimal(N as nat) + ">"@
    }

    fn write_text(&self, out: &mut String) {
        let mut i: usize = 0;
        assert(out@ + repeat_seq(self.0.text(), 0) =~= out@);
        while i < N
            invariant
                i <= N,
                out@ == old(out)@ + repeat_seq(self.0.text(), i as nat),
            decreases N - i,
        {
            self.0.write_text(out);
            i = i + 1;
            assert(out@ =~= old(out)@ + repeat_seq(self.0.text(), i as nat));
        }
    }

    fn write_debug(&self, out: &mut String) {
        out.append("Repeat(PhantomData<");
        C::write_type_path(out);
        out.append(">)");
        assert(out@ =~= old(out)@ + self.debug_text());
    }

    fn write_type_path(out: &mut String) {
        out.append("static_format::Repeat<");
        C::write_type_path(out);
        out.append(", ");
        write_decimal(N, out);
        out.append(">");
        assert(out@ =~= old(out)@ + Self::type_path());
    }
}

/// Exchanges the two renderings of the inner value: its diagnostic form
/// becomes the primary rendering, and its primary rendering the diagnostic form.
pub struct DisplaySwapDebug<T>(pub T);

impl<T: Render> Render for DisplaySwapDebug<T> {
    open spec fn text(&self) -> Seq<char> {
        self.0.debug_text()
    }

    open spec fn debug_text(&self) -> Seq<char> {
        self.0.text()
    }

    open spec fn type_path() -> Seq<char> {
        "static_format::DisplaySwapDebug<"@ + T::type_path() + ">"@
    }

    fn write_text(&self, out: &mut String) {
        self.0.write_debug(out);
    }

    fn write_debug(&self, out: &mut String) {
        self.0.write_text(out);
    }

    fn write_type_path(out: &mut String) {
        out.append("static_format::DisplaySwapDebug<");
        T::write_type_path(out);
        out.append(">");
        assert(out@ =~= old(out)@ + Self::type_path());
    }
}

} // verus!
