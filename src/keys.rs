use vstd::prelude::*;

verus! {

/// Whether the key name `name` occurs in the key list `keys`.
pub open spec fn mentions(keys: Seq<char>, name: Seq<char>) -> bool {
    exists|i: int|
        0 <= i && i + name.len() <= keys.len() && #[trigger] keys.subrange(i, i + name.len())
            == name
}

pub open spec fn up_name() -> Seq<char> {
    "ArrowUp"@
}

pub open spec fn down_name() -> Seq<char> {
    "ArrowDown"@
}

pub open spec fn left_name() -> Seq<char> {
    "ArrowLeft"@
}

pub open spec fn right_name() -> Seq<char> {
    "ArrowRight"@
}

/// The arrow keys held during one tick.
#[derive(Clone, Copy, Debug, PartialEq, Eq, Structural)]
pub struct KeySet {
    pub up: bool,
    pub down: bool,
    pub left: bool,
    pub right: bool,
}

/// No key held.
pub open spec fn no_keys() -> KeySet {
    KeySet { up: false, down: false, left: false, right: false }
}

/// The key set that a key list names.
pub open spec fn key_set_of(keys: Seq<char>) -> KeySet {
    KeySet {
        up: mentions(keys, up_name()),
        down: mentions(keys, down_name()),
        left: mentions(keys, left_name()),
        right: mentions(keys, right_name()),
    }
}

fn chars_of(s: &str) -> (r: Vec<char>)
    ensures
        r@ == s@,
{
    let n = s.unicode_len();
    let mut r: Vec<char> = Vec::new();
    let mut i: usize = 0;
    while i < n
        invariant
            n == s@.len(),
            i <= n,
            r@ == s@.subrange(0, i as int),
        decreases n - i,
    {
        r.push(s.get_char(i));
        i = i + 1;
        assert(r@ =~= s@.subrange(0, i as int));
    }
    assert(r@ =~= s@);
    r
}

fn matches_at(keys: &Vec<char>, name: &Vec<char>, at: usize) -> (r: bool)
    requires
        at + name@.len() <= keys@.len(),
    ensures
        r == (keys@.subrange(at as int, at + name@.len()) == name@),
{
    let kl = keys.len();
    let mut j: usize = 0;
    while j < name.len()
        invariant
            at + name@.len() <= keys@.len(),
            kl == keys@.len(),
            j <= name@.len(),
            forall|k: int| 0 <= k < j ==> keys@[at + k] == name@[k],
        decreases name@.len() - j,
    {
        if keys[at + j] != name[j] {
            assert(keys@.subrange(at as int, at + name@.len())[j as int] != name@[j as int]);
            return false;
        }
        j = j + 1;
    }
    assert(keys@.subrange(at as int, at + name@.len()) =~= name@);
    true
}

/// Whether `name` occurs in `keys`.
fn find(keys: &Vec<char>, name: &Vec<char>) -> (r: bool)
    ensures
        r == mentions(keys@, name@),
{
    if name.len() > keys.len() {
        return false;
    }
    let last = keys.len() - name.len();
    let mut i: usize = 0;
    while i <= last
        invariant
            last + name@.len() == keys@.len(),
            i <= last + 1,
            last < usize::MAX || i <= last,
            forall|k: int|
                0 <= k < i ==> #[trigger] keys@.subrange(k, k + name@.len()) != name@,
        decreases last + 1 - i,
    {
        if i == last {
            return matches_at(keys, name, i);
        }
        if matches_at(keys, name, i) {
            return true;
        }
        i = i + 1;
    }
    false
}

impl KeySet {
    /// No key held.
    pub fn none() -> (r: KeySet)
        ensures
            r == no_keys(),
    {
        KeySet { up: false, down: false, left: false, right: false }
    }

    /// Reads the arrow keys named in a key list, such as `"ArrowUp ArrowLeft"`.
    pub fn parse(keys: &str) -> (r: KeySet)
        ensures
            r == key_set_of(keys@),
    {
        let k = chars_of(keys);
        let up = find(&k, &chars_of("ArrowUp"));
        let down = find(&k, &chars_of("ArrowDown"));
        let left = find(&k, &chars_of("ArrowLeft"));
        let right = find(&k, &chars_of("ArrowRight"));
        KeySet { up, down, left, right }
    }
}

} // verus!
