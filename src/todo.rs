use vstd::prelude::*;
use vstd::string::*;

verus! {

/// One entry of the todo list, as the store holds it.
pub struct Todo {
    pub id: i32,
    pub name: String,
    pub description: String,
    pub done: bool,
}

/// The mathematical value of a `Todo`.
pub struct TodoView {
    pub id: int,
    pub name: Seq<char>,
    pub description: Seq<char>,
    pub done: bool,
}

impl View for Todo {
    type V = TodoView;

    open spec fn view(&self) -> TodoView {
        TodoView { id: self.id as int, name: self.name@, description: self.description@, done: self.done }
    }
}

/// A fresh copy of a string.
pub fn copy_text(s: &String) -> (r: String)
    ensures
        r@ == s@,
{
    String::from_str(s.as_str())
}

impl Todo {
    /// A copy of this entry with equal fields.
    pub fn duplicate(&self) -> (r: Todo)
        ensures
            r@ == self@,
    {
        Todo { id: self.id, name: copy_text(&self.name), description: copy_text(&self.description), done: self.done }
    }
}

/// Unicode's `White_Space` property, which `str::trim` strips.
pub open spec fn is_white(c: char) -> bool {
    let u = c as u32;
    (0x9 <= u && u <= 0xd) || u == 0x20 || u == 0x85 || u == 0xa0 || u == 0x1680
        || (0x2000 <= u && u <= 0x200a) || u == 0x2028 || u == 0x2029 || u == 0x202f
        || u == 0x205f || u == 0x3000
}

/// A text that holds nothing but white space: it is empty once trimmed.
pub open spec fn blank(s: Seq<char>) -> bool {
    forall|i: int| 0 <= i < s.len() ==> is_white(#[trigger] s[i])
}

pub fn is_white_char(c: char) -> (r: bool)
    ensures
        r == is_white(c),
{
    let u = c as u32;
    (0x9 <= u && u <= 0xd) || u == 0x20 || u == 0x85 || u == 0xa0 || u == 0x1680
        || (0x2000 <= u && u <= 0x200a) || u == 0x2028 || u == 0x2029 || u == 0x202f
        || u == 0x205f || u == 0x3000
}

/// Whether `s` is empty once leading and trailing white space is removed.
pub fn is_blank(s: &str) -> (r: bool)
    ensures
        r == blank(s@),
{
    let n = s.unicode_len();
    let mut i: usize = 0;
    while i < n
        invariant
            n == s@.len(),
            i <= n,
            forall|j: int| 0 <= j < i ==> is_white(#[trigger] s@[j]),
        decreases n - i,
    {
        if !is_white_char(s.get_char(i)) {
            return false;
        }
        i = i + 1;
    }
    true
}

/// Whether two texts hold the same characters.
pub fn same_text(a: &str, b: &str) -> (r: bool)
    ensures
        r == (a@ == b@),
{
    let n = a.unicode_len();
    if n != b.unicode_len() {
        return false;
    }
    let mut i: usize = 0;
    while i < n
        invariant
            n == a@.len(),
            n == b@.len(),
            i <= n,
            forall|j: int| 0 <= j < i ==> a@[j] == b@[j],
        decreases n - i,
    {
        if a.get_char(i) != b.get_char(i) {
            return false;
        }
        i = i + 1;
    }
    assert(a@ =~= b@);
    true
}

/// The decimal digit for `d < 10`.
pub open spec fn digit(d: nat) -> char {
    if d == 0 { '0' } else if d == 1 { '1' } else if d == 2 { '2' } else if d == 3 { '3' }
    else if d == 4 { '4' } else if d == 5 { '5' } else if d == 6 { '6' } else if d == 7 { '7' }
    else if d == 8 { '8' } else { '9' }
}

/// The decimal digits of `n`, most significant first, with no leading zero.
pub open spec fn digits(n: nat) -> Seq<char>
    decreases n,
{
    if n < 10 {
        seq![digit(n)]
    } else {
        digits(n / 10).push(digit(n % 10))
    }
}

/// An integer written in decimal, with a leading `-` when negative.
pub open spec fn decimal(i: int) -> Seq<char> {
    if i < 0 {
        seq!['-'] + digits((-i) as nat)
    } else {
        digits(i as nat)
    }
}

fn digit_text(d: u64) -> (r: &'static str)
    requires
        d < 10,
    ensures
        r@ == seq![digit(d as nat)],
{
    proof {
        reveal_strlit("0");
        reveal_strlit("1");
        reveal_strlit("2");
        reveal_strlit("3");
        reveal_strlit("4");
        reveal_strlit("5");
        reveal_strlit("6");
        reveal_strlit("7");
        reveal_strlit("8");
        reveal_strlit("9");
    }
    if d == 0 { "0" } else if d == 1 { "1" } else if d == 2 { "2" } else if d == 3 { "3" }
    else if d == 4 { "4" } else if d == 5 { "5" } else if d == 6 { "6" } else if d == 7 { "7" }
    else if d == 8 { "8" } else { "9" }
}

/// The decimal digits of `n`.
fn digits_text(n: u64) -> (r: String)
    ensures
        r@ == digits(n as nat),
{
    let mut acc = String::from_str(digit_text(n % 10));
    let mut m: u64 = n / 10;
    assert(n < 10 ==> digits(n as nat) == acc@);
    assert(n >= 10 ==> digits(n as nat) == digits(m as nat) + acc@);
    while m > 0
        invariant
            m == 0 ==> acc@ == digits(n as nat),
            m > 0 ==> digits(n as nat) == digits(m as nat) + acc@,
        decreases m,
    {
        let mut next = String::from_str(digit_text(m % 10));
        next.append(acc.as_str());
        proof {
            let d = seq![digit((m % 10) as nat)];
            if m >= 10 {
                assert(digits(m as nat) == digits((m / 10) as nat).push(digit((m % 10) as nat)));
                assert(digits(m as nat) + acc@ =~= digits((m / 10) as nat) + (d + acc@));
            } else {
                assert(digits(m as nat) + acc@ =~= d + acc@);
            }
        }
        acc = next;
        m = m / 10;
    }
    acc
}

/// An `i32` in decimal, as its `Display` writes it.
pub(crate) fn decimal_text(i: i32) -> (r: String)
    ensures
        r@ == decimal(i as int),
{
    if i < 0 {
        let n: u64 = (-(i as i64)) as u64;
        let d = digits_text(n);
        let mut r = String::from_str("-");
        r.append(d.as_str());
        proof { reveal_strlit("-"); }
        r
    } else {
        digits_text(i as u64)
    }
}

} // verus!
