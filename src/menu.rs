use vstd::prelude::*;
use vstd::string::*;

verus! {

/// Unicode's `White_Space` property: what is trimmed from console input.
pub open spec fn is_white_space(c: char) -> bool {
    let v = c as u32;
    (0x09 <= v && v <= 0x0d) || v == 0x20 || v == 0x85 || v == 0xa0 || v == 0x1680 || (0x2000
        <= v && v <= 0x200a) || v == 0x2028 || v == 0x2029 || v == 0x202f || v == 0x205f || v
        == 0x3000
}

/// `s` without its leading white space.
pub open spec fn trim_start_of(s: Seq<char>) -> Seq<char>
    decreases s.len(),
{
    if s.len() > 0 && is_white_space(s[0]) {
        trim_start_of(s.drop_first())
    } else {
        s
    }
}

/// `s` without its trailing white space.
pub open spec fn trim_end_of(s: Seq<char>) -> Seq<char>
    decreases s.len(),
{
    if s.len() > 0 && is_white_space(s.last()) {
        trim_end_of(s.drop_last())
    } else {
        s
    }
}

/// `s` without its leading and trailing white space.
pub open spec fn trimmed(s: Seq<char>) -> Seq<char> {
    trim_end_of(trim_start_of(s))
}

/// One of the four entries of the menu, or an input that names none of them.
#[derive(Clone, Copy, Debug, PartialEq, Eq, Structural)]
pub enum MenuChoice {
    CreatePlaylist,
    AddMusic,
    PlayMusic,
    Exit,
    Invalid,
}

/// The entry that an input names once it is trimmed: `1` to `4`.
pub open spec fn choice_of(t: Seq<char>) -> MenuChoice {
    if t == seq!['1'] {
        MenuChoice::CreatePlaylist
    } else if t == seq!['2'] {
        MenuChoice::AddMusic
    } else if t == seq!['3'] {
        MenuChoice::PlayMusic
    } else if t == seq!['4'] {
        MenuChoice::Exit
    } else {
        MenuChoice::Invalid
    }
}

impl MenuChoice {
    /// Whether the session stops after this choice; any other choice prompts again.
    pub fn ends_session(&self) -> (r: bool)
        ensures
            r == (*self == MenuChoice::Exit),
    {
        match self {
            MenuChoice::Exit => true,
            _ => false,
        }
    }
}

/// Whether `c` is white space, in Unicode's sense.
pub fn is_white_space_char(c: char) -> (r: bool)
    ensures
        r == is_white_space(c),
{
    let v = c as u32;
    (0x09 <= v && v <= 0x0d) || v == 0x20 || v == 0x85 || v == 0xa0 || v == 0x1680 || (0x2000
        <= v && v <= 0x200a) || v == 0x2028 || v == 0x2029 || v == 0x202f || v == 0x205f || v
        == 0x3000
}

proof fn lemma_trim_start_skip(s: Seq<char>, i: int)
    requires
        0 <= i < s.len(),
        is_white_space(s[i]),
    ensures
        trim_start_of(s.subrange(i, s.len() as int)) == trim_start_of(
            s.subrange(i + 1, s.len() as int),
        ),
{
    assert(s.subrange(i, s.len() as int).drop_first() =~= s.subrange(i + 1, s.len() as int));
}

proof fn lemma_trim_end_skip(s: Seq<char>, j: int)
    requires
        0 < j <= s.len(),
        is_white_space(s[j - 1]),
    ensures
        trim_end_of(s.subrange(0, j)) == trim_end_of(s.subrange(0, j - 1)),
{
    assert(s.subrange(0, j).drop_last() =~= s.subrange(0, j - 1));
}

/// The input with its leading and trailing white space removed.
pub fn trim_input(s: &str) -> (r: String)
    ensures
        r@ == trimmed(s@),
{
    let n = s.unicode_len();
    let mut i: usize = 0;
    assert(s@.subrange(0, n as int) =~= s@);
    while i < n && is_white_space_char(s.get_char(i))
        invariant
            n == s@.len(),
            i <= n,
            trim_start_of(s@.subrange(i as int, n as int)) == trim_start_of(s@),
        decreases n - i,
    {
        proof {
            lemma_trim_start_skip(s@, i as int);
        }
        i = i + 1;
    }
    let rest = s.substring_char(i, n);
    let m = rest.unicode_len();
    let mut j: usize = m;
    assert(rest@.subrange(0, m as int) =~= rest@);
    while j > 0 && is_white_space_char(rest.get_char(j - 1))
        invariant
            m == rest@.len(),
            j <= m,
            trim_end_of(rest@.subrange(0, j as int)) == trim_end_of(rest@),
        decreases j,
    {
        proof {
            lemma_trim_end_skip(rest@, j as int);
        }
        j = j - 1;
    }
    let kept = rest.substring_char(0, j);
    String::from_str(kept)
}

/// The menu entry that a line typed at the prompt selects.
pub fn parse_choice(input: &str) -> (r: MenuChoice)
    ensures
        r == choice_of(trimmed(input@)),
{
    let t = trim_input(input);
    let s = t.as_str();
    if s.unicode_len() != 1 {
        return MenuChoice::Invalid;
    }
    let c = s.get_char(0);
    proof {
        assert(t@ =~= seq![c]);
    }
    if c == '1' {
        MenuChoice::CreatePlaylist
    } else if c == '2' {
        MenuChoice::AddMusic
    } else if c == '3' {
        MenuChoice::PlayMusic
    } else if c == '4' {
        MenuChoice::Exit
    } else {
        MenuChoice::Invalid
    }
}

} // verus!
