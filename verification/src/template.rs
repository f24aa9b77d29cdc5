//! Command-template resolution.
//!
//! A template is a string with named placeholders written `{name}`.
//! Resolution substitutes each placeholder with the value bound to its
//! name, in a single textual pass: substituted values are never scanned
//! again. There is no escaping mechanism; a `{` that is not closed
//! before the next `{`, and any `}` outside a placeholder, make the
//! template malformed and resolution fails.

use vstd::prelude::*;
use vstd::string::StrSliceExecFns;
use vstd::string::StringExecFns;

verus! {

/// Error from resolving a command template.
#[derive(Debug)]
pub enum ResolveError {
    /// A placeholder named by the payload has no binding.
    UnboundPlaceholder(String),
    /// The template holds brace characters that form no placeholder.
    MalformedTemplate,
}

/// Mathematical image of a `ResolveError`.
pub enum ResolveErrorSpec {
    UnboundPlaceholder(Seq<char>),
    MalformedTemplate,
}

impl View for ResolveError {
    type V = ResolveErrorSpec;

    open spec fn view(&self) -> ResolveErrorSpec {
        match self {
            ResolveError::UnboundPlaceholder(name) => {
                ResolveErrorSpec::UnboundPlaceholder(name@)
            },
            ResolveError::MalformedTemplate => ResolveErrorSpec::MalformedTemplate,
        }
    }
}

/// A set of named values for the placeholders of a template.
/// A later binding for a name overrides an earlier one.
pub struct Bindings {
    pairs: Vec<(String, String)>,
}

/// The mapping that a sequence of key/value pairs denotes, later
/// pairs overriding earlier ones.
pub open spec fn map_of(pairs: Seq<(String, String)>) -> Map<Seq<char>, Seq<char>>
    decreases pairs.len(),
{
    if pairs.len() == 0 {
        Map::empty()
    } else {
        map_of(pairs.drop_last()).insert(pairs.last().0@, pairs.last().1@)
    }
}

impl View for Bindings {
    type V = Map<Seq<char>, Seq<char>>;

    closed spec fn view(&self) -> Map<Seq<char>, Seq<char>> {
        map_of(self.pairs@)
    }
}

impl Bindings {
    /// An empty binding set.
    pub fn new() -> (r: Bindings)
        ensures
            r@ == Map::<Seq<char>, Seq<char>>::empty(),
    {
        let r = Bindings { pairs: Vec::new() };
        proof {
            assert(r.pairs@ =~= Seq::<(String, String)>::empty());
        }
        r
    }

    /// Binds `value` to `key`, overriding any earlier binding of `key`.
    pub fn insert(&mut self, key: &str, value: &str)
        ensures
            final(self)@ == old(self)@.insert(key@, value@),
    {
        let pair = (String::from_str(key), String::from_str(value));
        self.pairs.push(pair);
        proof {
            assert(self.pairs@.drop_last() =~= old(self).pairs@);
        }
    }

    /// The value bound to `key`, if any.
    pub fn get(&self, key: &str) -> (r: Option<&String>)
        ensures
            match r {
                Some(v) => self@.contains_key(key@) && v@ == self@[key@],
                None => !self@.contains_key(key@),
            },
    {
        let owned = String::from_str(key);
        let r = Self::get_from(&self.pairs, self.pairs.len(), &owned);
        proof {
            assert(self.pairs@.take(self.pairs@.len() as int) =~= self.pairs@);
        }
        r
    }

    /// Looks `key` up among the first `n` pairs, preferring the latest.
    fn get_from<'a>(pairs: &'a Vec<(String, String)>, n: usize, key: &String) -> (r: Option<
        &'a String,
    >)
        requires
            n <= pairs.len(),
        ensures
            match r {
                Some(v) => map_of(pairs@.take(n as int)).contains_key(key@) && v@ == map_of(
                    pairs@.take(n as int),
                )[key@],
                None => !map_of(pairs@.take(n as int)).contains_key(key@),
            },
        decreases n,
    {
        if n == 0 {
            proof {
                assert(pairs@.take(0) =~= Seq::<(String, String)>::empty());
            }
            None
        } else {
            proof {
                assert(pairs@.take(n as int).drop_last() =~= pairs@.take(n as int - 1));
                assert(pairs@.take(n as int).last() == pairs@[n as int - 1]);
            }
            if pairs[n - 1].0 == *key {
                Some(&pairs[n - 1].1)
            } else {
                Self::get_from(pairs, n - 1, key)
            }
        }
    }
}

/// Index of the `}` that closes a placeholder whose name starts at
/// `i`, or `None` when another brace or the end of the template comes
/// first.
pub open spec fn find_close(t: Seq<char>, i: int) -> Option<int>
    decreases t.len() - i,
{
    if i < 0 || i >= t.len() {
        None
    } else if t[i] == '}' {
        Some(i)
    } else if t[i] == '{' {
        None
    } else {
        find_close(t, i + 1)
    }
}

/// Where `find_close` finds a closing brace, it lies in bounds, it is a
/// `}`, and no brace stands between the start and it.
proof fn lemma_find_close_bounds(t: Seq<char>, i: int)
    requires
        0 <= i,
    ensures
        match find_close(t, i) {
            Some(j) => i <= j < t.len() && t[j] == '}' && (forall|k: int|
                i <= k < j ==> t[k] != '{' && t[k] != '}'),
            None => true,
        },
    decreases t.len() - i,
{
    if i < t.len() && t[i] != '}' && t[i] != '{' {
        lemma_find_close_bounds(t, i + 1);
    }
}

/// What resolving `t` from position `i` onward yields.
pub open spec fn resolve_from_spec(
    t: Seq<char>,
    i: int,
    b: Map<Seq<char>, Seq<char>>,
) -> Result<Seq<char>, ResolveErrorSpec>
    decreases t.len() - i,
    via resolve_from_spec_decreases
{
    if i < 0 || i >= t.len() {
        Ok(Seq::empty())
    } else if t[i] == '}' {
        Err(ResolveErrorSpec::MalformedTemplate)
    } else if t[i] == '{' {
        match find_close(t, i + 1) {
            None => Err(ResolveErrorSpec::MalformedTemplate),
            Some(j) => {
                let name = t.subrange(i + 1, j);
                if b.contains_key(name) {
                    match resolve_from_spec(t, j + 1, b) {
                        Ok(rest) => Ok(b[name] + rest),
                        Err(e) => Err(e),
                    }
                } else {
                    Err(ResolveErrorSpec::UnboundPlaceholder(name))
                }
            },
        }
    } else {
        match resolve_from_spec(t, i + 1, b) {
            Ok(rest) => Ok(seq![t[i]] + rest),
            Err(e) => Err(e),
        }
    }
}

#[via_fn]
proof fn resolve_from_spec_decreases(t: Seq<char>, i: int, b: Map<Seq<char>, Seq<char>>) {
    if 0 <= i < t.len() && t[i] == '{' {
        lemma_find_close_bounds(t, i + 1);
    }
}

/// What resolving the whole of `t` yields.
pub open spec fn resolve_spec(t: Seq<char>, b: Map<Seq<char>, Seq<char>>) -> Result<
    Seq<char>,
    ResolveErrorSpec,
> {
    resolve_from_spec(t, 0, b)
}

/// Mathematical image of a resolution result.
pub open spec fn result_view(r: Result<String, ResolveError>) -> Result<
    Seq<char>,
    ResolveErrorSpec,
> {
    match r {
        Ok(s) => Ok(s@),
        Err(e) => Err(e@),
    }
}

/// Index of the `}` closing a placeholder that opens at `start`, as
/// `find_close` describes it.
fn find_close_exec(t: &str, start: usize, len: usize) -> (r: Option<usize>)
    requires
        len == t@.len(),
    ensures
        match r {
            Some(j) => find_close(t@, start as int) == Some(j as int),
            None => find_close(t@, start as int) is None,
        },
{
    let mut j = start;
    while j < len
        invariant
            len == t@.len(),
            start <= j,
            find_close(t@, start as int) == find_close(t@, j as int),
        decreases len - j,
    {
        let c = t.get_char(j);
        if c == '}' {
            return Some(j);
        }
        if c == '{' {
            return None;
        }
        j = j + 1;
    }
    None
}

/// Whether `t`, read from position `i` onward, is a well-formed
/// template: every `{` has a matching `}` with no brace between, and
/// no `}` stands outside a placeholder.
pub open spec fn wf_from(t: Seq<char>, i: int) -> bool
    decreases t.len() - i,
    via wf_from_decreases
{
    if i < 0 || i >= t.len() {
        true
    } else if t[i] == '}' {
        false
    } else if t[i] == '{' {
        match find_close(t, i + 1) {
            None => false,
            Some(j) => wf_from(t, j + 1),
        }
    } else {
        wf_from(t, i + 1)
    }
}

#[via_fn]
proof fn wf_from_decreases(t: Seq<char>, i: int) {
    if 0 <= i < t.len() && t[i] == '{' {
        lemma_find_close_bounds(t, i + 1);
    }
}

/// Whether `t` is a well-formed template.
pub open spec fn wf_template(t: Seq<char>) -> bool {
    wf_from(t, 0)
}

/// The names of the placeholders of `t` from position `i` onward.
pub open spec fn placeholders_from(t: Seq<char>, i: int) -> Set<Seq<char>>
    decreases t.len() - i,
    via placeholders_from_decreases
{
    if i < 0 || i >= t.len() {
        Set::empty()
    } else if t[i] == '{' {
        match find_close(t, i + 1) {
            None => Set::empty(),
            Some(j) => placeholders_from(t, j + 1).insert(t.subrange(i + 1, j)),
        }
    } else {
        placeholders_from(t, i + 1)
    }
}

#[via_fn]
proof fn placeholders_from_decreases(t: Seq<char>, i: int) {
    if 0 <= i < t.len() && t[i] == '{' {
        lemma_find_close_bounds(t, i + 1);
    }
}

/// The names of the placeholders of `t`.
pub open spec fn placeholders(t: Seq<char>) -> Set<Seq<char>> {
    placeholders_from(t, 0)
}

/// Whether `s` holds no brace character.
pub open spec fn brace_free(s: Seq<char>) -> bool {
    forall|k: int| 0 <= k < s.len() ==> s[k] != '{' && s[k] != '}'
}

proof fn lemma_resolve_total_from(t: Seq<char>, i: int, b: Map<Seq<char>, Seq<char>>)
    requires
        0 <= i,
        wf_from(t, i),
        forall|n: Seq<char>| placeholders_from(t, i).contains(n) ==> b.contains_key(n),
        forall|n: Seq<char>| b.contains_key(n) ==> brace_free(b[n]),
    ensures
        resolve_from_spec(t, i, b) is Ok,
        brace_free(resolve_from_spec(t, i, b)->Ok_0),
    decreases t.len() - i,
{
    if i >= t.len() {
    } else if t[i] == '{' {
        lemma_find_close_bounds(t, i + 1);
        let j = find_close(t, i + 1)->Some_0;
        let name = t.subrange(i + 1, j);
        assert(placeholders_from(t, i).contains(name));
        lemma_resolve_total_from(t, j + 1, b);
        let rest = resolve_from_spec(t, j + 1, b)->Ok_0;
        assert forall|k: int| 0 <= k < (b[name] + rest).len() implies (b[name] + rest)[k] != '{'
            && (b[name] + rest)[k] != '}' by {
            if k < b[name].len() {
                assert(brace_free(b[name]));
            }
        }
    } else {
        lemma_resolve_total_from(t, i + 1, b);
        let rest = resolve_from_spec(t, i + 1, b)->Ok_0;
        assert(brace_free(seq![t[i]] + rest));
    }
}

/// Law: a well-formed template whose placeholders are all bound, with
/// brace-free binding values, resolves successfully, and the result
/// holds no placeholder syntax.
pub proof fn lemma_resolve_succeeds_when_bound(t: Seq<char>, b: Map<Seq<char>, Seq<char>>)
    requires
        wf_template(t),
        forall|n: Seq<char>| placeholders(t).contains(n) ==> b.contains_key(n),
        forall|n: Seq<char>| b.contains_key(n) ==> brace_free(b[n]),
    ensures
        resolve_spec(t, b) is Ok,
        brace_free(resolve_spec(t, b)->Ok_0),
{
    lemma_resolve_total_from(t, 0, b);
}

proof fn lemma_resolve_unbound_from(t: Seq<char>, i: int, b: Map<Seq<char>, Seq<char>>)
    requires
        0 <= i,
        wf_from(t, i),
        exists|n: Seq<char>| placeholders_from(t, i).contains(n) && !b.contains_key(n),
    ensures
        resolve_from_spec(t, i, b) is Err,
        resolve_from_spec(t, i, b)->Err_0 is UnboundPlaceholder,
        placeholders_from(t, i).contains(
            resolve_from_spec(t, i, b)->Err_0->UnboundPlaceholder_0,
        ),
        !b.contains_key(resolve_from_spec(t, i, b)->Err_0->UnboundPlaceholder_0),
    decreases t.len() - i,
{
    if i >= t.len() {
        assert(placeholders_from(t, i) =~= Set::empty());
    } else if t[i] == '{' {
        lemma_find_close_bounds(t, i + 1);
        let j = find_close(t, i + 1)->Some_0;
        let name = t.subrange(i + 1, j);
        if b.contains_key(name) {
            let n = choose|n: Seq<char>|
                placeholders_from(t, i).contains(n) && !b.contains_key(n);
            assert(placeholders_from(t, j + 1).contains(n));
            lemma_resolve_unbound_from(t, j + 1, b);
        }
    } else {
        lemma_resolve_unbound_from(t, i + 1, b);
    }
}

/// Law: a well-formed template with a placeholder that the bindings
/// lack fails to resolve, with an `UnboundPlaceholder` error that
/// names one such placeholder.
pub proof fn lemma_resolve_fails_when_unbound(t: Seq<char>, b: Map<Seq<char>, Seq<char>>)
    requires
        wf_template(t),
        exists|n: Seq<char>| placeholders(t).contains(n) && !b.contains_key(n),
    ensures
        resolve_spec(t, b) is Err,
        resolve_spec(t, b)->Err_0 is UnboundPlaceholder,
        placeholders(t).contains(resolve_spec(t, b)->Err_0->UnboundPlaceholder_0),
        !b.contains_key(resolve_spec(t, b)->Err_0->UnboundPlaceholder_0),
{
    lemma_resolve_unbound_from(t, 0, b);
}

/// Substitutes every placeholder of `template` with its binding.
///
/// Pure: the template and the bindings are read through shared
/// references and are left unmodified. The result is exactly what
/// `resolve_spec` says of the template's and bindings' views.
pub fn resolve(template: &str, bindings: &Bindings) -> (r: Result<String, ResolveError>)
    ensures
        result_view(r) == resolve_spec(template@, bindings@),
{
    let len = template.unicode_len();
    let mut out = String::new();
    let mut i: usize = 0;
    while i < len
        invariant
            len == template@.len(),
            i <= len,
            resolve_spec(template@, bindings@) == (match resolve_from_spec(
                template@,
                i as int,
                bindings@,
            ) {
                Ok(rest) => Ok::<Seq<char>, ResolveErrorSpec>(out@ + rest),
                Err(e) => Err::<Seq<char>, ResolveErrorSpec>(e),
            }),
        decreases len - i,
    {
        let ghost prev = out@;
        let c = template.get_char(i);
        if c == '}' {
            return Err(ResolveError::MalformedTemplate);
        }
        if c == '{' {
            match find_close_exec(template, i + 1, len) {
                None => {
                    return Err(ResolveError::MalformedTemplate);
                },
                Some(j) => {
                    proof {
                        lemma_find_close_bounds(template@, i as int + 1);
                    }
                    let name = template.substring_char(i + 1, j);
                    match bindings.get(name) {
                        None => {
                            return Err(ResolveError::UnboundPlaceholder(String::from_str(name)));
                        },
                        Some(value) => {
                            out.append(value.as_str());
                            i = j + 1;
                            proof {
                                let rest = resolve_from_spec(template@, i as int, bindings@);
                                if rest is Ok {
                                    assert(prev + (value@ + rest->Ok_0) =~= out@ + rest->Ok_0);
                                }
                            }
                        },
                    }
                },
            }
        } else {
            let piece = template.substring_char(i, i + 1);
            proof {
                assert(piece@ =~= seq![template@[i as int]]);
            }
            out.append(piece);
            i = i + 1;
            proof {
                let rest = resolve_from_spec(template@, i as int, bindings@);
                if rest is Ok {
                    assert(prev + (piece@ + rest->Ok_0) =~= out@ + rest->Ok_0);
                }
            }
        }
    }
    proof {
        assert(out@ + Seq::<char>::empty() =~= out@);
    }
    Ok(out)
}

} // verus!
