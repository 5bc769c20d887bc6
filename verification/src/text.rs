//! Human-readable texts: decimal numbers and joined lists.
use vstd::prelude::*;

verus! {

/// A value that has a human-readable text.
pub trait Text {
    /// The text of the value.
    spec fn text_of(&self) -> Seq<char>;

    /// Writes the text of the value.
    fn text(&self) -> (s: String)
        ensures
            s@ == self.text_of(),
    ;
}

/// The character of the decimal digit `d`.
pub open spec fn digit_char(d: nat) -> char {
    if d == 0 {
        '0'
    } else if d == 1 {
        '1'
    } else if d == 2 {
        '2'
    } else if d == 3 {
        '3'
    } else if d == 4 {
        '4'
    } else if d == 5 {
        '5'
    } else if d == 6 {
        '6'
    } else if d == 7 {
        '7'
    } else if d == 8 {
        '8'
    } else {
        '9'
    }
}

/// The decimal writing of `n`, without leading zeros.
pub open spec fn decimal(n: nat) -> Seq<char>
    decreases n,
{
    if n < 10 {
        seq![digit_char(n)]
    } else {
        decimal(n / 10).push(digit_char(n % 10))
    }
}

/// The texts joined the way a list is shown: an empty text so far takes
/// the next one as it is, otherwise `", "` comes in between.
pub open spec fn joined(texts: Seq<Seq<char>>) -> Seq<char>
    decreases texts.len(),
{
    if texts.len() == 0 {
        Seq::empty()
    } else {
        let acc = joined(texts.drop_last());
        if acc.len() == 0 {
            texts.last()
        } else {
            acc + ", "@ + texts.last()
        }
    }
}

/// The text of the decimal digit `d`.
fn digit_str(d: usize) -> (s: &'static str)
    requires
        d < 10,
    ensures
        s@ == seq![digit_char(d as nat)],
{
    proof {
        reveal_strlit("0");
        reveal_strlit("1");
        reveal_strlit("2");
        reveal_strlit("3");
        reveal_strlit("4");
        reveal_strlit("5");
        reveal_strlit("6");
        reveal_strlit("7");
        reveal_strlit("8");
        reveal_strlit("9");
    }
    if d == 0 {
        "0"
    } else if d == 1 {
        "1"
    } else if d == 2 {
        "2"
    } else if d == 3 {
        "3"
    } else if d == 4 {
        "4"
    } else if d == 5 {
        "5"
    } else if d == 6 {
        "6"
    } else if d == 7 {
        "7"
    } else if d == 8 {
        "8"
    } else {
        "9"
    }
}

/// Writes `n` in decimal.
pub fn decimal_string(n: u64) -> (s: String)
    ensures
        s@ == decimal(n as nat),
    decreases n,
{
    if n < 10 {
        String::from_str(digit_str(n as usize))
    } else {
        let mut s = decimal_string(n / 10);
        s.append(digit_str((n % 10) as usize));
        s
    }
}

/// Writes `prefix` followed by `n` in decimal.
pub fn prefixed_decimal(prefix: &str, n: u64) -> (s: String)
    ensures
        s@ == prefix@ + decimal(n as nat),
{
    let mut s = String::from_str(prefix);
    let digits = decimal_string(n);
    s.append(digits.as_str());
    s
}

impl Text for u64 {
    /// The decimal writing of the number.
    open spec fn text_of(&self) -> Seq<char> {
        decimal(*self as nat)
    }

    fn text(&self) -> (s: String) {
        decimal_string(*self)
    }
}

impl Text for u32 {
    /// The decimal writing of the number.
    open spec fn text_of(&self) -> Seq<char> {
        decimal(*self as nat)
    }

    fn text(&self) -> (s: String) {
        decimal_string(*self as u64)
    }
}

impl Text for usize {
    /// The decimal writing of the number.
    open spec fn text_of(&self) -> Seq<char> {
        decimal(*self as nat)
    }

    fn text(&self) -> (s: String) {
        decimal_string(*self as u64)
    }
}

/// Joins texts the way a list is shown.
pub fn join_texts(texts: &[String]) -> (s: String)
    ensures
        s@ == joined(texts@.map_values(|t: String| t@)),
{
    let ghost views = texts@.map_values(|t: String| t@);
    let mut s = String::new();
    let mut i: usize = 0;
    proof {
        reveal_strlit(", ");
        assert(views.take(0) =~= Seq::<Seq<char>>::empty());
    }
    while i < texts.len()
        invariant
            i <= texts@.len(),
            views == texts@.map_values(|t: String| t@),
            s@ == joined(views.take(i as int)),
        decreases texts@.len() - i,
    {
        proof {
            assert(views.take(i + 1).drop_last() =~= views.take(i as int));
            assert(views.take(i + 1).last() == texts@[i as int]@);
        }
        if s.as_str().unicode_len() == 0 {
            s = texts[i].clone();
        } else {
            s.append(", ");
            s.append(texts[i].as_str());
        }
        i = i + 1;
    }
    proof {
        assert(views.take(i as int) =~= views);
    }
    s
}

/// The texts of the values, joined the way a list is shown.
pub fn debug_iter<I: Text>(ns: &[I]) -> (s: String)
    ensures
        s@ == joined(ns@.map_values(|n: I| n.text_of())),
{
    let mut texts: Vec<String> = Vec::new();
    let mut i: usize = 0;
    while i < ns.len()
        invariant
            i <= ns@.len(),
            texts@.len() == i,
            forall|k: int| 0 <= k < i ==> #[trigger] texts@[k]@ == ns@[k].text_of(),
        decreases ns@.len() - i,
    {
        let t = ns[i].text();
        texts.push(t);
        i = i + 1;
    }
    proof {
        assert(texts@.map_values(|t: String| t@) =~= ns@.map_values(|n: I| n.text_of()));
    }
    join_texts(texts.as_slice())
}

} // verus!
