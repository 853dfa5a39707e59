//! The environment that a pipeline is evaluated in: variables given on the command
//! line as `KEY=VALUE`, and two that default to what the repository says.

use crate::text;
use crate::text::chars_of;
use crate::text::same_text;
use crate::text::trim_text;
use vstd::prelude::*;

verus! {

/// Where the first equals sign at or behind `i` stands.
pub open spec fn equals_sign(s: Seq<char>, i: int) -> Option<int>
    decreases s.len() - i,
{
    if !(0 <= i < s.len()) {
        None
    } else if s[i] == '=' {
        Some(i)
    } else {
        equals_sign(s, i + 1)
    }
}

/// What `s` says as `KEY=VALUE`: key and value stand before and behind the first
/// equals sign, white space around them does not count, and a key is not empty. Or
/// else, what is wrong with it.
pub open spec fn key_val(s: Seq<char>) -> Result<(Seq<char>, Seq<char>), Seq<char>> {
    match equals_sign(s, 0) {
        None => Err("invalid KEY=VALUE: no `=` found in ["@ + s + "]"@),
        Some(p) => {
            let key = text::trim(s.take(p));
            if key.len() == 0 {
                Err("invalid KEY=VALUE: key is empty in ["@ + s + "]"@)
            } else {
                Ok((key, text::trim(s.skip(p + 1))))
            }
        },
    }
}

/// Quotes a text in a complaint about it.
fn complaint(about: &str, s: &str) -> (r: String)
    ensures
        r@ == about@ + s@ + "]"@,
{
    let mut r = about.to_owned();
    r.append(s);
    r.append("]");
    r
}

/// Reads `s` as `KEY=VALUE`.
pub fn parse_key_val(s: &str) -> (r: Result<(String, String), String>)
    ensures
        match r {
            Ok((key, value)) => key_val(s@) == Ok::<(Seq<char>, Seq<char>), Seq<char>>(
                (key@, value@),
            ),
            Err(reason) => key_val(s@) == Err::<(Seq<char>, Seq<char>), Seq<char>>(reason@),
        },
{
    let v = chars_of(s);
    let mut pos: usize = 0;
    while pos < v.len() && v[pos] != '='
        invariant
            v@ == s@,
            pos <= v@.len(),
            equals_sign(s@, 0) == equals_sign(s@, pos as int),
        decreases v@.len() - pos,
    {
        pos = pos + 1;
    }
    if pos == v.len() {
        return Err(complaint("invalid KEY=VALUE: no `=` found in [", s));
    }
    let key = trim_text(s.substring_char(0, pos));
    let value = trim_text(s.substring_char(pos + 1, v.len()));
    assert(s@.subrange(0, pos as int) == s@.take(pos as int));
    assert(s@.subrange(pos + 1, s@.len() as int) == s@.skip(pos + 1));
    if key.as_str().is_empty() {
        return Err(complaint("invalid KEY=VALUE: key is empty in [", s));
    }
    Ok((key, value))
}

/// Variables, as mathematics has them: names and values, in the order in which
/// they were given.
pub type Pairs = Seq<(Seq<char>, Seq<char>)>;

/// The names and values that a vector of strings holds.
pub open spec fn pairs(v: Seq<(String, String)>) -> Pairs {
    Seq::new(v.len(), |i: int| (v[i].0@, v[i].1@))
}

/// Whether a variable is given.
pub open spec fn has_key(p: Pairs, key: Seq<char>) -> bool {
    exists|i: int| 0 <= i < p.len() && (#[trigger] p[i]).0 == key
}

/// Whether no variable is given twice.
pub open spec fn distinct(p: Pairs) -> bool {
    forall|i: int, j: int| 0 <= i < j < p.len() ==> (#[trigger] p[i]).0 != (#[trigger] p[j]).0
}

/// Where, at or behind `i`, a variable is given that was given before.
pub open spec fn first_repeat(p: Pairs, i: int) -> Option<int>
    decreases p.len() - i,
{
    if !(0 <= i < p.len()) {
        None
    } else if has_key(p.take(i), p[i].0) {
        Some(i)
    } else {
        first_repeat(p, i + 1)
    }
}

/// The two variables that default to what the repository says.
#[derive(Clone, Copy, Debug, PartialEq, Eq, Structural)]
pub enum GitKey {
    /// The branch that is checked out.
    Branch,
    /// The commit that is checked out.
    Commit,
}

impl GitKey {
    /// The name of the variable.
    pub open spec fn text(self) -> Seq<char> {
        match self {
            GitKey::Branch => "GIT_BRANCH"@,
            GitKey::Commit => "GIT_COMMIT"@,
        }
    }

    /// The name of the variable.
    pub fn name(&self) -> (r: &'static str)
        ensures
            r@ == self.text(),
    {
        match self {
            GitKey::Branch => "GIT_BRANCH",
            GitKey::Commit => "GIT_COMMIT",
        }
    }
}

/// The repository's variable that is still to be looked up.
pub open spec fn missing_key(p: Pairs) -> Option<GitKey> {
    if !has_key(p, GitKey::Branch.text()) {
        Some(GitKey::Branch)
    } else if !has_key(p, GitKey::Commit.text()) {
        Some(GitKey::Commit)
    } else {
        None
    }
}

/// An environment: variables, none of them twice.
pub struct Env {
    entries: Vec<(String, String)>,
}

impl View for Env {
    type V = Pairs;

    closed spec fn view(&self) -> Pairs {
        pairs(self.entries@)
    }
}

impl Env {
    /// No variable is there twice.
    pub open spec fn valid(self) -> bool {
        distinct(self@)
    }

    /// The variables.
    pub fn entries(&self) -> (r: &Vec<(String, String)>)
        ensures
            pairs(r@) == self@,
    {
        &self.entries
    }

    /// Whether a variable is there.
    pub fn contains_key(&self, key: &str) -> (r: bool)
        ensures
            r == has_key(self@, key@),
    {
        let mut i: usize = 0;
        while i < self.entries.len()
            invariant
                i <= self.entries@.len(),
                forall|k: int| 0 <= k < i ==> (#[trigger] self@[k]).0 != key@,
            decreases self.entries@.len() - i,
        {
            if same_text(self.entries[i].0.as_str(), key) {
                assert(self@[i as int].0 == key@);
                return true;
            }
            i = i + 1;
        }
        false
    }

    /// The repository's variable that is still to be looked up.
    pub fn missing(&self) -> (r: Option<GitKey>)
        ensures
            r == missing_key(self@),
    {
        if !self.contains_key(GitKey::Branch.name()) {
            Some(GitKey::Branch)
        } else if !self.contains_key(GitKey::Commit.name()) {
            Some(GitKey::Commit)
        } else {
            None
        }
    }

    /// Adds a variable that is not there.
    pub fn insert(&mut self, key: String, value: String)
        requires
            old(self).valid(),
            !has_key(old(self)@, key@),
        ensures
            final(self).valid(),
            final(self)@ == old(self)@.push((key@, value@)),
    {
        self.entries.push((key, value));
        assert(self@ == old(self)@.push((key@, value@)));
    }

    /// Adds the repository's variable that was looked up.
    pub fn supply(&mut self, key: GitKey, value: String)
        requires
            old(self).valid(),
            missing_key(old(self)@) == Some(key),
        ensures
            final(self).valid(),
            final(self)@ == old(self)@.push((key.text(), value@)),
    {
        self.insert(key.name().to_owned(), value);
    }
}

/// Takes the variables given on the command line. None may be given twice: if one
/// is, the first that was given before is the error.
pub fn parse_env(given: Vec<(String, String)>) -> (r: Result<Env, String>)
    ensures
        match first_repeat(pairs(given@), 0) {
            None => r is Ok && r->Ok_0.valid() && r->Ok_0@ == pairs(given@),
            Some(i) => r is Err && r->Err_0@ == "Duplicate env key ["@ + pairs(given@)[i].0 + "]"@,
        },
{
    let ghost p = pairs(given@);
    let mut env = Env { entries: Vec::new() };
    assert(env@ == p.take(0));
    let mut i: usize = 0;
    while i < given.len()
        invariant
            i <= given@.len(),
            p == pairs(given@),
            env.valid(),
            env@ == p.take(i as int),
            first_repeat(p, 0) == first_repeat(p, i as int),
        decreases given@.len() - i,
    {
        let key = &given[i].0;
        if env.contains_key(key.as_str()) {
            return Err(complaint("Duplicate env key [", key.as_str()));
        }
        env.insert(key.clone(), given[i].1.clone());
        i = i + 1;
        assert(env@ == p.take(i as int));
    }
    assert(p.take(p.len() as int) == p);
    Ok(env)
}

proof fn equals_sign_bounds(s: Seq<char>, i: int)
    requires
        0 <= i <= s.len(),
    ensures
        equals_sign(s, i) matches Some(p) ==> i <= p < s.len() && s[p] == '=' && forall|k: int|
            i <= k < p ==> #[trigger] s[k] != '=',
        equals_sign(s, i) is None ==> forall|k: int| i <= k < s.len() ==> #[trigger] s[k] != '=',
    decreases s.len() - i,
{
    if i < s.len() && s[i] != '=' {
        equals_sign_bounds(s, i + 1);
    }
}

/// A key and a value that are written as `KEY=VALUE` are read back, as long as the
/// key is not empty and holds no equals sign, and neither starts or ends with white
/// space.
pub proof fn key_val_read_back(key: Seq<char>, value: Seq<char>)
    requires
        key.len() > 0,
        !key.contains('='),
        !text::white(key[0]) && !text::white(key.last()),
        value.len() > 0 ==> !text::white(value[0]) && !text::white(value.last()),
    ensures
        key_val(key + "="@ + value) == Ok::<(Seq<char>, Seq<char>), Seq<char>>((key, value)),
{
    reveal_strlit("=");
    let s = key + "="@ + value;
    let n = key.len() as int;
    equals_sign_bounds(s, 0);
    assert(s[n] == '=');
    assert forall|k: int| 0 <= k < n implies s[k] != '=' by {
        assert(s[k] == key[k]);
        assert(key.contains(key[k]));
    }
    assert(equals_sign(s, 0) == Some(n));
    assert(s.take(n) == key);
    assert(s.skip(n + 1) == value);
    text::trim_keeps(key);
    text::trim_keeps(value);
}

/// A key that was read is not empty and holds no equals sign, and neither it nor
/// the value starts or ends with white space.
pub proof fn key_val_is_clean(s: Seq<char>)
    ensures
        key_val(s) matches Ok((key, value)) ==> {
            &&& key.len() > 0
            &&& !key.contains('=')
            &&& !text::white(key[0]) && !text::white(key.last())
            &&& value.len() > 0 ==> !text::white(value[0]) && !text::white(value.last())
        },
{
    equals_sign_bounds(s, 0);
    if let Some(p) = equals_sign(s, 0) {
        let before = s.take(p);
        text::trim_takes_white_space(before);
        text::trim_takes_white_space(s.skip(p + 1));
        let key = text::trim(before);
        if key.contains('=') {
            let k = choose|k: int| 0 <= k < key.len() && key[k] == '=';
            let (a, b) = choose|a: int, b: int|
                #![trigger before.subrange(a, b)]
                {
                    &&& 0 <= a <= b <= before.len()
                    &&& key == before.subrange(a, b)
                    &&& forall|k: int| 0 <= k < a ==> text::white(#[trigger] before[k])
                    &&& forall|k: int| b <= k < before.len() ==> text::white(#[trigger] before[k])
                };
            assert(key[k] == before[a + k]);
            assert(s[a + k] == '=');
        }
    }
}

/// A repeat is found where there is one, and only there.
proof fn first_repeat_bounds(p: Pairs, i: int)
    requires
        0 <= i <= p.len(),
    ensures
        first_repeat(p, i) matches Some(k) ==> i <= k < p.len() && has_key(p.take(k), p[k].0),
        first_repeat(p, i) is None ==> forall|k: int|
            i <= k < p.len() ==> !has_key(p.take(k), (#[trigger] p[k]).0),
    decreases p.len() - i,
{
    if i < p.len() && !has_key(p.take(i), p[i].0) {
        first_repeat_bounds(p, i + 1);
    }
}

/// The variables of a command line are refused if and only if one of them is given
/// twice.
pub proof fn refused_iff_given_twice(p: Pairs)
    ensures
        first_repeat(p, 0) is None <==> distinct(p),
{
    first_repeat_bounds(p, 0);
    match first_repeat(p, 0) {
        None => {
            assert forall|i: int, j: int| 0 <= i < j < p.len() implies (#[trigger] p[i]).0 != (
            #[trigger] p[j]).0 by {
                if p[i].0 == p[j].0 {
                    assert(p.take(j)[i].0 == p[j].0);
                }
            }
        },
        Some(k) => {
            let i = choose|i: int| 0 <= i < p.take(k).len() && (#[trigger] p.take(k)[i]).0 == p[k].0;
            assert(p[i].0 == p[k].0);
        },
    }
}

/// The environment after the repository was asked for what is missing: first for the
/// branch, then for the commit.
pub open spec fn completed(p: Pairs, branch: Seq<char>, commit: Seq<char>) -> Pairs {
    let q = if missing_key(p) == Some(GitKey::Branch) {
        p.push((GitKey::Branch.text(), branch))
    } else {
        p
    };
    if missing_key(q) == Some(GitKey::Commit) {
        q.push((GitKey::Commit.text(), commit))
    } else {
        q
    }
}

/// When nothing is missing any more, both of the repository's variables are there,
/// everything that was given on the command line is there unchanged, and what the
/// repository says is there only where nothing was given.
pub proof fn given_variables_win(p: Pairs, branch: Seq<char>, commit: Seq<char>)
    requires
        distinct(p),
    ensures
        ({
            let r = completed(p, branch, commit);
            &&& missing_key(r) is None
            &&& distinct(r)
            &&& r.len() >= p.len()
            &&& r.take(p.len() as int) == p
            &&& r.contains((GitKey::Branch.text(), branch)) || has_key(p, GitKey::Branch.text())
            &&& r.contains((GitKey::Commit.text(), commit)) || has_key(p, GitKey::Commit.text())
            &&& r.len() == p.len() + (if has_key(p, GitKey::Branch.text()) {
                0int
            } else {
                1
            }) + (if has_key(p, GitKey::Commit.text()) {
                0int
            } else {
                1
            })
        }),
{
    reveal_strlit("GIT_BRANCH");
    reveal_strlit("GIT_COMMIT");
    let b = GitKey::Branch.text();
    let c = GitKey::Commit.text();
    assert(b[4] == 'B' && c[4] == 'C');
    let q = if missing_key(p) == Some(GitKey::Branch) {
        p.push((b, branch))
    } else {
        p
    };
    assert(has_key(q, b)) by {
        if !has_key(p, b) {
            assert(q[p.len() as int].0 == b);
        }
    }
    assert(has_key(q, c) == has_key(p, c)) by {
        if has_key(p, c) {
            let i = choose|i: int| 0 <= i < p.len() && (#[trigger] p[i]).0 == c;
            assert(q[i].0 == c);
        }
        if has_key(q, c) {
            let i = choose|i: int| 0 <= i < q.len() && (#[trigger] q[i]).0 == c;
            assert(i < p.len());
            assert(p[i].0 == c);
        }
    }
    let r = completed(p, branch, commit);
    assert(has_key(r, b)) by {
        let i = choose|i: int| 0 <= i < q.len() && (#[trigger] q[i]).0 == b;
        assert(r[i].0 == b);
    }
    assert(has_key(r, c)) by {
        if has_key(q, c) {
            let i = choose|i: int| 0 <= i < q.len() && (#[trigger] q[i]).0 == c;
            assert(r[i].0 == c);
        } else {
            assert(r[q.len() as int].0 == c);
        }
    }
    if !has_key(p, b) {
        assert(r[p.len() as int] == (b, branch));
    }
    if !has_key(p, c) {
        assert(r[q.len() as int] == (c, commit));
    }
    assert(r.take(p.len() as int) == p);
}

/// A text is taken apart at its first equals sign: what stands before it, without the white
/// space around it, is the key, and what stands behind it, without the white space around
/// it, is the value. A text without an equals sign, and one whose key is blank, are refused
/// and quoted.
pub proof fn key_and_value_are_told_apart(a: Seq<char>, b: Seq<char>)
    requires
        !a.contains('='),
    ensures
        key_val(a) == Err::<(Seq<char>, Seq<char>), Seq<char>>(
            "invalid KEY=VALUE: no `=` found in ["@ + a + "]"@,
        ),
        ({
            let s = a + "="@ + b;
            &&& text::trim(a).len() > 0 ==> key_val(s) == Ok::<(Seq<char>, Seq<char>), Seq<char>>(
                (text::trim(a), text::trim(b)),
            )
            &&& text::trim(a).len() == 0 ==> key_val(s) == Err::<
                (Seq<char>, Seq<char>),
                Seq<char>,
            >("invalid KEY=VALUE: key is empty in ["@ + s + "]"@)
        }),
{
    reveal_strlit("=");
    let s = a + "="@ + b;
    let n = a.len() as int;
    equals_sign_bounds(a, 0);
    equals_sign_bounds(s, 0);
    assert(s[n] == '=');
    assert forall|k: int| 0 <= k < n implies s[k] != '=' && a[k] != '=' by {
        assert(s[k] == a[k]);
        assert(a.contains(a[k]));
    }
    assert(equals_sign(s, 0) == Some(n));
    assert(equals_sign(a, 0) is None);
    assert(s.take(n) == a);
    assert(s.skip(n + 1) == b);
}

/// The variable that is refused is the first that was given before: up to it no variable is
/// given twice.
pub proof fn first_repeat_is_the_first(p: Pairs)
    ensures
        first_repeat(p, 0) matches Some(k) ==> 0 <= k < p.len() && distinct(p.take(k)) && has_key(
            p.take(k),
            p[k].0,
        ),
{
    first_repeat_bounds(p, 0);
    if let Some(k) = first_repeat(p, 0) {
        no_repeat_before(p, 0);
        assert forall|i: int, j: int| 0 <= i < j < p.take(k).len() implies (#[trigger] p.take(
            k,
        )[i]).0 != (#[trigger] p.take(k)[j]).0 by {
            if p[i].0 == p[j].0 {
                assert(p.take(j)[i].0 == p[j].0);
                assert(p[j] == p.take(k)[j]);
            }
        }
    }
}

proof fn no_repeat_before(p: Pairs, i: int)
    requires
        0 <= i <= p.len(),
    ensures
        first_repeat(p, i) matches Some(k) ==> forall|j: int|
            i <= j < k ==> !has_key(p.take(j), (#[trigger] p[j]).0),
    decreases p.len() - i,
{
    if i < p.len() && !has_key(p.take(i), p[i].0) {
        no_repeat_before(p, i + 1);
    }
}

/// The repository is asked for the branch if and only if no `GIT_BRANCH` is there, and then
/// for the commit if and only if no `GIT_COMMIT` is.
pub proof fn what_the_repository_is_asked_for(p: Pairs)
    ensures
        GitKey::Branch.text() == "GIT_BRANCH"@,
        GitKey::Commit.text() == "GIT_COMMIT"@,
        missing_key(p) == Some(GitKey::Branch) <==> !has_key(p, "GIT_BRANCH"@),
        missing_key(p) == Some(GitKey::Commit) <==> has_key(p, "GIT_BRANCH"@) && !has_key(
            p,
            "GIT_COMMIT"@,
        ),
        missing_key(p) is None <==> has_key(p, "GIT_BRANCH"@) && has_key(p, "GIT_COMMIT"@),
{
}

/// Variables are looked at as they are, in the order in which they were given: what stands
/// first in a pair is its name, and what stands second is its value.
pub proof fn variables_are_seen_as_they_are(v: Seq<(String, String)>, i: int, key: Seq<char>)
    ensures
        pairs(v).len() == v.len(),
        0 <= i < v.len() ==> pairs(v)[i].0 == v[i].0@ && pairs(v)[i].1 == v[i].1@,
        0 <= i < v.len() ==> has_key(pairs(v), v[i].0@),
        has_key(pairs(v), key) ==> exists|k: int| 0 <= k < v.len() && (#[trigger] v[k]).0@ == key,
{
    if 0 <= i < v.len() {
        assert(pairs(v)[i].0 == v[i].0@);
    }
    if has_key(pairs(v), key) {
        let k = choose|k: int| 0 <= k < pairs(v).len() && (#[trigger] pairs(v)[k]).0 == key;
        assert(v[k].0@ == key);
    }
}

} // verus!
