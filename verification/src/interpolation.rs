//! Explicit, non-destructive Compose variable interpolation.
//!
//! The kernel reads `$VAR`, `${VAR}` and the operator forms `${VAR:-default}`,
//! `${VAR-default}`, `${VAR:?message}`, `${VAR?message}`, `${VAR:+alternative}` and
//! `${VAR+alternative}`; `$$` stands for one dollar sign. Its meaning is stated by the
//! spec function [`interp`] over the UTF-8 bytes of the scalar, and every executable
//! function here is proved against it.

use crate::diagnostic::{
    any_error, has_error, same_diagnostic, Diagnostic, DiagnosticCode, DiagnosticLabel, LabelKind, Severity,
};
use crate::model::Located;
use crate::source::{SourceId, SourceSpan};
use crate::text::{
    bytes, find_from, is_alpha, is_digit, lemma_after_ascii, lemma_ascii_boundary, lemma_find_from, lemma_sb_concat,
    lemma_sb_injective, owned, sb, slice, str_eq, contains_dollar, bytes_lt, lemma_bytes_lt_total, lemma_bytes_lt_trans, str_lt,
};
use vstd::prelude::*;
use vstd::utf8::*;

verus! {

broadcast use vstd::utf8::group_utf8_lib;

/// One value supplied by an explicit interpolation environment.
#[derive(Clone, PartialEq, Eq)]
pub struct EnvironmentValue {
    value: String,
    sensitive: bool,
}

impl EnvironmentValue {
    /// The supplied text and whether it is sensitive.
    pub closed spec fn view_pair(&self) -> (Seq<char>, bool) {
        (self.value@, self.sensitive)
    }

    /// Creates a non-sensitive value.
    pub fn plain(value: String) -> (r: Self)
        ensures
            r.view_pair() == (value@, false),
    {
        Self { value, sensitive: false }
    }

    /// Creates a value whose use makes the interpolation result sensitive.
    pub fn sensitive(value: String) -> (r: Self)
        ensures
            r.view_pair() == (value@, true),
    {
        Self { value, sensitive: true }
    }

    /// Returns the supplied value.
    pub fn value(&self) -> (r: &str)
        ensures
            r@ == self.view_pair().0,
    {
        self.value.as_str()
    }

    /// Reports whether callers should redact the value when displaying the result.
    pub fn is_sensitive(&self) -> (r: bool)
        ensures
            r == self.view_pair().1,
    {
        self.sensitive
    }

    /// Returns a copy with the same text and classification.
    fn duplicate(&self) -> (r: Self)
        ensures
            r.view_pair() == self.view_pair(),
    {
        Self { value: self.value.clone(), sensitive: self.sensitive }
    }
}

/// Supplies variables to interpolation without granting implicit process-environment access.
///
/// An implementation answers each name by a fixed value: `lookup` states that value, and
/// `get` must return it.
pub trait EnvironmentProvider {
    /// The value of a variable as text and sensitivity, or `None` when it is unset.
    spec fn lookup(&self, name: Seq<char>) -> Option<(Seq<char>, bool)>;

    /// Returns a variable value, or `None` when the variable is unset.
    fn get(&self, name: &str) -> (r: Option<EnvironmentValue>)
        ensures
            r is None <==> self.lookup(name@) is None,
            r matches Some(v) ==> self.lookup(name@) == Some(v.view_pair()),
    ;
}

/// An explicit environment that never contains a variable.
#[derive(Debug, Clone, Copy, Default, PartialEq, Eq)]
pub struct EmptyEnvironment;

impl EnvironmentProvider for EmptyEnvironment {
    open spec fn lookup(&self, name: Seq<char>) -> Option<(Seq<char>, bool)> {
        None
    }

    fn get(&self, name: &str) -> (r: Option<EnvironmentValue>) {
        None
    }
}

/// The variables named by a list of entries, later entries replacing earlier ones.
pub open spec fn entries_map(s: Seq<(String, EnvironmentValue)>) -> Map<Seq<char>, (Seq<char>, bool)>
    decreases s.len(),
{
    if s.len() == 0 {
        Map::empty()
    } else {
        entries_map(s.drop_last()).insert(s.last().0@, s.last().1.view_pair())
    }
}

/// No two entries carry the same name.
pub open spec fn unique_names(s: Seq<(String, EnvironmentValue)>) -> bool {
    forall|i: int, j: int| 0 <= i < j < s.len() ==> s[i].0@ != s[j].0@
}

/// The entries are in strictly increasing byte-wise order of their names.
pub open spec fn sorted_names(s: Seq<(String, EnvironmentValue)>) -> bool {
    forall|i: int, j: int| 0 <= i < j < s.len() ==> bytes_lt(sb(s[i].0@), sb(s[j].0@))
}

/// Entries in strictly increasing order carry distinct names.
proof fn lemma_sorted_unique(s: Seq<(String, EnvironmentValue)>)
    requires
        sorted_names(s),
    ensures
        unique_names(s),
{
    assert forall|i: int, j: int| 0 <= i < j < s.len() implies s[i].0@ != s[j].0@ by {
        lemma_bytes_lt_total(sb(s[i].0@), sb(s[j].0@));
    }
}

/// Inserting an entry with a new name anywhere binds that name and keeps every other binding.
proof fn lemma_entries_map_insert(s: Seq<(String, EnvironmentValue)>, i: int, x: (String, EnvironmentValue))
    requires
        0 <= i <= s.len(),
        unique_names(s),
        unique_names(s.insert(i, x)),
    ensures
        entries_map(s.insert(i, x)) == entries_map(s).insert(x.0@, x.1.view_pair()),
{
    let t = s.insert(i, x);
    assert forall|k: Seq<char>| #[trigger] entries_map(t).contains_key(k) == entries_map(s).insert(x.0@, x.1.view_pair()).contains_key(k)
        && (entries_map(t).contains_key(k) ==> entries_map(t)[k] == entries_map(s).insert(x.0@, x.1.view_pair())[k]) by {
        lemma_entries_map_lookup(s, k);
        lemma_entries_map_lookup(t, k);
        assert(t[i] == x);
        if k == x.0@ {
        } else {
            if exists|j: int| 0 <= j < s.len() && s[j].0@ == k {
                let j = choose|j: int| 0 <= j < s.len() && s[j].0@ == k;
                if j < i {
                    assert(t[j] == s[j]);
                } else {
                    assert(t[j + 1] == s[j]);
                }
            }
            if exists|j: int| 0 <= j < t.len() && t[j].0@ == k {
                let j = choose|j: int| 0 <= j < t.len() && t[j].0@ == k;
                if j < i {
                    assert(t[j] == s[j]);
                } else if j > i {
                    assert(t[j] == s[j - 1]);
                }
            }
        }
    }
    assert(entries_map(t) =~= entries_map(s).insert(x.0@, x.1.view_pair()));
}

/// A name is bound exactly when some entry carries it, to that entry's value.
proof fn lemma_entries_map_lookup(s: Seq<(String, EnvironmentValue)>, k: Seq<char>)
    requires
        unique_names(s),
    ensures
        entries_map(s).contains_key(k) <==> exists|i: int| 0 <= i < s.len() && s[i].0@ == k,
        forall|i: int| 0 <= i < s.len() && s[i].0@ == k ==> entries_map(s)[k] == s[i].1.view_pair(),
    decreases s.len(),
{
    if s.len() > 0 {
        let p = s.drop_last();
        assert(unique_names(p));
        lemma_entries_map_lookup(p, k);
        if exists|i: int| 0 <= i < s.len() && s[i].0@ == k {
            let i = choose|i: int| 0 <= i < s.len() && s[i].0@ == k;
            if i < s.len() - 1 {
                assert(p[i] == s[i]);
            }
        }
        if exists|i: int| 0 <= i < p.len() && p[i].0@ == k {
            let i = choose|i: int| 0 <= i < p.len() && p[i].0@ == k;
            assert(s[i] == p[i]);
        }
    }
}

/// Entries with the same names and values give the same map.
proof fn lemma_entries_map_same(s: Seq<(String, EnvironmentValue)>, t: Seq<(String, EnvironmentValue)>)
    requires
        s.len() == t.len(),
        unique_names(t),
        forall|j: int| 0 <= j < s.len() ==> s[j].0@ == t[j].0@ && s[j].1.view_pair() == t[j].1.view_pair(),
    ensures
        unique_names(s),
        entries_map(s) == entries_map(t),
    decreases s.len(),
{
    if s.len() > 0 {
        lemma_entries_map_same(s.drop_last(), t.drop_last());
    }
}

/// With distinct names, the map has one key per entry.
proof fn lemma_entries_map_len(s: Seq<(String, EnvironmentValue)>)
    requires
        unique_names(s),
    ensures
        entries_map(s).dom().finite(),
        entries_map(s).len() == s.len(),
    decreases s.len(),
{
    if s.len() > 0 {
        let p = s.drop_last();
        assert(unique_names(p));
        lemma_entries_map_len(p);
        lemma_entries_map_lookup(p, s.last().0@);
        assert(!entries_map(p).contains_key(s.last().0@)) by {
            if entries_map(p).contains_key(s.last().0@) {
                let i = choose|i: int| 0 <= i < p.len() && p[i].0@ == s.last().0@;
                assert(s[i] == p[i]);
            }
        }
    }
}

/// Replacing the value of an entry rebinds its name.
proof fn lemma_entries_map_update(s: Seq<(String, EnvironmentValue)>, i: int, v: EnvironmentValue)
    requires
        unique_names(s),
        0 <= i < s.len(),
    ensures
        unique_names(s.update(i, (s[i].0, v))),
        entries_map(s.update(i, (s[i].0, v))) == entries_map(s).insert(s[i].0@, v.view_pair()),
    decreases s.len(),
{
    let t = s.update(i, (s[i].0, v));
    assert(unique_names(t)) by {
        assert forall|a: int, b: int| 0 <= a < b < t.len() implies t[a].0@ != t[b].0@ by {
            assert(t[a].0 == s[a].0);
            assert(t[b].0 == s[b].0);
        }
    }
    let p = s.drop_last();
    assert(unique_names(p));
    if i == s.len() - 1 {
        assert(t.drop_last() =~= p);
        assert(entries_map(t) =~= entries_map(s).insert(s[i].0@, v.view_pair()));
    } else {
        lemma_entries_map_update(p, i, v);
        assert(t.drop_last() =~= p.update(i, (p[i].0, v)));
        assert(s.last().0@ != s[i].0@);
        assert(entries_map(t) =~= entries_map(s).insert(s[i].0@, v.view_pair()));
    }
}

/// A deterministic caller-owned interpolation environment.
#[derive(PartialEq, Eq)]
pub struct MapEnvironment {
    entries: Vec<(String, EnvironmentValue)>,
}

impl View for MapEnvironment {
    type V = Map<Seq<char>, (Seq<char>, bool)>;

    closed spec fn view(&self) -> Map<Seq<char>, (Seq<char>, bool)> {
        entries_map(self.entries@)
    }
}

impl MapEnvironment {
    /// No variable is stored twice and the variables are in byte-wise order of their names.
    pub closed spec fn well_formed(&self) -> bool {
        unique_names(self.entries@) && sorted_names(self.entries@)
    }

    /// The stored variables in storage order, each with its value and sensitivity.
    pub closed spec fn spec_entries(&self) -> Seq<(Seq<char>, (Seq<char>, bool))> {
        self.entries@.map_values(|e: (String, EnvironmentValue)| (e.0@, e.1.view_pair()))
    }

    /// No variable is stored twice, and the variables are kept in byte-wise order of their
    /// names.
    #[verifier::type_invariant]
    spec fn wf(self) -> bool {
        &&& unique_names(self.entries@)
        &&& sorted_names(self.entries@)
    }

    /// Creates an empty environment map.
    pub fn new() -> (r: Self)
        ensures
            r@ == Map::<Seq<char>, (Seq<char>, bool)>::empty(),
            r.well_formed(),
    {
        Self { entries: Vec::new() }
    }

    /// Stores a classified value and returns the value it replaced, if any.
    fn store(&mut self, name: String, value: EnvironmentValue) -> (r: Option<EnvironmentValue>)
        ensures
            final(self)@ == old(self)@.insert(name@, value.view_pair()),
            final(self).well_formed(),
            r is None <==> !old(self)@.contains_key(name@),
            r matches Some(v) ==> old(self)@[name@] == v.view_pair(),
    {
        proof {
            use_type_invariant(&*self);
        }
        let mut entries: Vec<(String, EnvironmentValue)> = Vec::new();
        std::mem::swap(&mut entries, &mut self.entries);
        proof {
            lemma_entries_map_lookup(entries@, name@);
        }
        let ghost before = entries@;
        let mut i: usize = 0;
        while i < entries.len()
            invariant
                0 <= i <= entries.len(),
                entries@ == before,
                unique_names(before),
                sorted_names(before),
                before == old(self).entries@,
                forall|j: int| 0 <= j < i ==> before[j].0@ != name@ && bytes_lt(sb(before[j].0@), sb(name@)),
            decreases entries.len() - i,
        {
            if str_eq(entries[i].0.as_str(), name.as_str()) {
                let previous = entries[i].1.duplicate();
                proof {
                    lemma_entries_map_lookup(before, name@);
                    lemma_entries_map_update(before, i as int, value);
                }
                let key = entries[i].0.clone();
                entries.set(i, (key, value));
                assert(entries@ =~= before.update(i as int, (before[i as int].0, value)));
                proof {
                    assert forall|a: int, b: int| 0 <= a < b < entries@.len() implies bytes_lt(
                        sb(entries@[a].0@),
                        sb(entries@[b].0@),
                    ) by {
                        assert(entries@[a].0 == before[a].0);
                        assert(entries@[b].0 == before[b].0);
                    }
                }
                self.entries = entries;
                return Some(previous);
            }
            if str_lt(name.as_str(), entries[i].0.as_str()) {
                proof {
                    assert forall|j: int| 0 <= j < before.len() implies before[j].0@ != name@ by {
                        if j > i {
                            lemma_bytes_lt_trans(sb(name@), sb(before[i as int].0@), sb(before[j].0@));
                        }
                        if j >= i {
                            lemma_bytes_lt_total(sb(name@), sb(before[j].0@));
                        }
                    }
                    lemma_entries_map_lookup(before, name@);
                }
                let ghost x = (name, value);
                entries.insert(i, (name, value));
                proof {
                    let t = entries@;
                    assert(t =~= before.insert(i as int, x));
                    assert forall|a: int, b: int| 0 <= a < b < t.len() implies bytes_lt(sb(t[a].0@), sb(t[b].0@)) by {
                        if b < i {
                            assert(t[a] == before[a] && t[b] == before[b]);
                        } else if b == i {
                            assert(t[a] == before[a]);
                        } else if a == i {
                            assert(t[b] == before[b - 1]);
                            if b - 1 > i {
                                lemma_bytes_lt_trans(sb(name@), sb(before[i as int].0@), sb(before[b - 1].0@));
                            }
                        } else if a < i {
                            assert(t[a] == before[a] && t[b] == before[b - 1]);
                        } else {
                            assert(t[a] == before[a - 1] && t[b] == before[b - 1]);
                        }
                    }
                    lemma_sorted_unique(t);
                    lemma_entries_map_insert(before, i as int, x);
                }
                self.entries = entries;
                return None;
            }
            proof {
                lemma_sb_injective(before[i as int].0@, name@);
                lemma_bytes_lt_total(sb(before[i as int].0@), sb(name@));
            }
            i += 1;
        }
        proof {
            lemma_entries_map_lookup(before, name@);
        }
        entries.push((name, value));
        proof {
            assert(entries@.drop_last() =~= before);
            assert forall|a: int, b: int|
                0 <= a < b < entries@.len() implies entries@[a].0@ != entries@[b].0@ by {
                if b < before.len() {
                    assert(entries@[a] == before[a]);
                    assert(entries@[b] == before[b]);
                }
            }
            assert forall|a: int, b: int| 0 <= a < b < entries@.len() implies bytes_lt(
                sb(entries@[a].0@),
                sb(entries@[b].0@),
            ) by {
                assert(entries@[a] == before[a]);
                if b < before.len() {
                    assert(entries@[b] == before[b]);
                }
            }
        }
        self.entries = entries;
        None
    }

    /// Inserts a non-sensitive value and returns the replaced value, if any.
    pub fn insert(&mut self, name: String, value: String) -> (r: Option<EnvironmentValue>)
        ensures
            final(self).well_formed(),
            final(self)@ == old(self)@.insert(name@, (value@, false)),
            r is None <==> !old(self)@.contains_key(name@),
            r matches Some(v) ==> old(self)@[name@] == v.view_pair(),
    {
        self.store(name, EnvironmentValue::plain(value))
    }

    /// Inserts a sensitive value and returns the replaced value, if any.
    pub fn insert_sensitive(&mut self, name: String, value: String) -> (r: Option<EnvironmentValue>)
        ensures
            final(self).well_formed(),
            final(self)@ == old(self)@.insert(name@, (value@, true)),
            r is None <==> !old(self)@.contains_key(name@),
            r matches Some(v) ==> old(self)@[name@] == v.view_pair(),
    {
        self.store(name, EnvironmentValue::sensitive(value))
    }

    /// Inserts an already classified value and returns the replaced value, if any.
    pub fn insert_value(&mut self, name: String, value: EnvironmentValue) -> (r: Option<EnvironmentValue>)
        ensures
            final(self).well_formed(),
            final(self)@ == old(self)@.insert(name@, value.view_pair()),
            r is None <==> !old(self)@.contains_key(name@),
            r matches Some(v) ==> old(self)@[name@] == v.view_pair(),
    {
        self.store(name, value)
    }

    /// Returns the number of configured variables.
    pub fn len(&self) -> (r: usize)
        ensures
            self@.dom().finite(),
            r == self@.len(),
    {
        proof {
            use_type_invariant(self);
            lemma_entries_map_len(self.entries@);
        }
        self.entries.len()
    }

    /// Reports whether no variables are configured.
    pub fn is_empty(&self) -> (r: bool)
        ensures
            self@.dom().finite(),
            r <==> self@.len() == 0,
    {
        proof {
            use_type_invariant(self);
            lemma_entries_map_len(self.entries@);
        }
        self.entries.len() == 0
    }
}

impl Clone for MapEnvironment {
    fn clone(&self) -> (r: Self)
        ensures
            r@ == self@,
            r.well_formed(),
    {
        proof {
            use_type_invariant(self);
        }
        let mut entries: Vec<(String, EnvironmentValue)> = Vec::new();
        let mut i: usize = 0;
        while i < self.entries.len()
            invariant
                0 <= i <= self.entries.len(),
                unique_names(self.entries@),
                entries@.len() == i,
                forall|j: int|
                    0 <= j < i ==> entries@[j].0@ == self.entries@[j].0@ && entries@[j].1.view_pair()
                        == self.entries@[j].1.view_pair(),
            decreases self.entries.len() - i,
        {
            let name = self.entries[i].0.clone();
            let value = self.entries[i].1.duplicate();
            entries.push((name, value));
            i += 1;
        }
        proof {
            lemma_entries_map_same(entries@, self.entries@);
            assert forall|a: int, b: int| 0 <= a < b < entries@.len() implies bytes_lt(
                sb(entries@[a].0@),
                sb(entries@[b].0@),
            ) by {
                assert(sorted_names(self.entries@));
            }
        }
        Self { entries }
    }
}

impl Default for MapEnvironment {
    fn default() -> (r: Self)
        ensures
            r@ == Map::<Seq<char>, (Seq<char>, bool)>::empty(),
            r.well_formed(),
    {
        Self::new()
    }
}

impl EnvironmentProvider for MapEnvironment {
    open spec fn lookup(&self, name: Seq<char>) -> Option<(Seq<char>, bool)> {
        if self@.contains_key(name) {
            Some(self@[name])
        } else {
            None
        }
    }

    fn get(&self, name: &str) -> (r: Option<EnvironmentValue>) {
        proof {
            use_type_invariant(self);
            lemma_entries_map_lookup(self.entries@, name@);
        }
        let mut i: usize = 0;
        while i < self.entries.len()
            invariant
                0 <= i <= self.entries.len(),
                unique_names(self.entries@),
                forall|j: int| 0 <= j < i ==> self.entries@[j].0@ != name@,
            decreases self.entries.len() - i,
        {
            if str_eq(self.entries[i].0.as_str(), name) {
                proof {
                    lemma_entries_map_lookup(self.entries@, name@);
                }
                return Some(self.entries[i].1.duplicate());
            }
            i += 1;
        }
        proof {
            lemma_entries_map_lookup(self.entries@, name@);
        }
        None
    }
}

/// Behavior for an unset direct `$VAR` or `${VAR}` substitution.
#[derive(Debug, Clone, Copy, PartialEq, Eq, Hash, Structural)]
pub enum MissingVariablePolicy {
    /// Match Compose's documented behavior: warn and substitute an empty string.
    EmptyWithWarning,
    /// Warn and retain the original expression in the recovered value.
    PreserveWithWarning,
    /// Emit an error and retain the original expression in the recovered value.
    Error,
}

/// Controls one explicit interpolation operation.
#[derive(Debug, Clone, Copy, PartialEq, Eq, Structural)]
pub struct InterpolationOptions {
    missing_variable: MissingVariablePolicy,
    max_nesting: usize,
}

impl InterpolationOptions {
    /// The direct missing-variable policy.
    pub closed spec fn spec_missing_variable(self) -> MissingVariablePolicy {
        self.missing_variable
    }

    /// The maximum nested-expression depth.
    pub closed spec fn spec_max_nesting(self) -> usize {
        self.max_nesting
    }

    /// Creates options using the requested missing-variable policy and a nesting limit of 32.
    pub fn new(missing_variable: MissingVariablePolicy) -> (r: Self)
        ensures
            r.spec_missing_variable() == missing_variable,
            r.spec_max_nesting() == 32,
    {
        Self { missing_variable, max_nesting: 32 }
    }

    /// Sets the maximum nested-expression depth; zero is promoted to one.
    pub fn with_max_nesting(self, max_nesting: usize) -> (r: Self)
        ensures
            r.spec_missing_variable() == self.spec_missing_variable(),
            r.spec_max_nesting() == if max_nesting == 0 { 1 } else { max_nesting },
    {
        let mut r = self;
        r.max_nesting = if max_nesting == 0 { 1 } else { max_nesting };
        r
    }

    /// Returns the direct missing-variable policy.
    pub fn missing_variable(self) -> (r: MissingVariablePolicy)
        ensures
            r == self.spec_missing_variable(),
    {
        self.missing_variable
    }

    /// Returns the maximum nested-expression depth.
    pub fn max_nesting(self) -> (r: usize)
        ensures
            r == self.spec_max_nesting(),
    {
        self.max_nesting
    }
}

impl InterpolationOptions {
    /// The default options: empty substitution with a warning, nesting limit 32.
    pub closed spec fn default_spec() -> Self {
        InterpolationOptions { missing_variable: MissingVariablePolicy::EmptyWithWarning, max_nesting: 32 }
    }
}

impl Default for InterpolationOptions {
    fn default() -> (r: Self)
        ensures
            r == Self::default_spec(),
            r.spec_missing_variable() == MissingVariablePolicy::EmptyWithWarning,
            r.spec_max_nesting() == 32,
    {
        Self::new(MissingVariablePolicy::EmptyWithWarning)
    }
}

/// A source-aware scalar supplied to the interpolation kernel.
#[derive(Clone, Copy, PartialEq, Eq)]
pub struct InterpolationInput<'a> {
    value: &'a str,
    span: SourceSpan,
    sensitive: bool,
}

impl<'a> InterpolationInput<'a> {
    /// The uninterpolated scalar.
    pub closed spec fn spec_value(self) -> Seq<char> {
        self.value@
    }

    /// The scalar's source span.
    pub closed spec fn spec_span(self) -> SourceSpan {
        self.span
    }

    /// Whether the authored scalar is sensitive.
    pub closed spec fn spec_sensitive(self) -> bool {
        self.sensitive
    }

    /// Creates a non-sensitive input.
    pub fn new(value: &'a str, span: SourceSpan) -> (r: Self)
        ensures
            r.spec_value() == value@,
            r.spec_span() == span,
            !r.spec_sensitive(),
    {
        Self { value, span, sensitive: false }
    }

    /// Marks the authored scalar as sensitive.
    pub fn sensitive(self) -> (r: Self)
        ensures
            r.spec_value() == self.spec_value(),
            r.spec_span() == self.spec_span(),
            r.spec_sensitive(),
    {
        let mut r = self;
        r.sensitive = true;
        r
    }

    /// Returns the uninterpolated semantic scalar.
    pub fn value(self) -> (r: &'a str)
        ensures
            r@ == self.spec_value(),
    {
        self.value
    }

    /// Returns the scalar's source span.
    pub fn span(self) -> (r: SourceSpan)
        ensures
            r == self.spec_span(),
    {
        self.span
    }

    /// Reports whether the authored scalar is sensitive.
    pub fn is_sensitive(self) -> (r: bool)
        ensures
            r == self.spec_sensitive(),
    {
        self.sensitive
    }
}

/// The operator used by one interpolation expression.
#[derive(Debug, Clone, Copy, PartialEq, Eq, Hash, Structural)]
pub enum InterpolationOperator {
    /// `$VAR` or `${VAR}`.
    Direct,
    /// `${VAR:-default}`.
    DefaultIfUnsetOrEmpty,
    /// `${VAR-default}`.
    DefaultIfUnset,
    /// `${VAR:?message}`.
    RequiredIfUnsetOrEmpty,
    /// `${VAR?message}`.
    RequiredIfUnset,
    /// `${VAR:+alternative}`.
    AlternativeIfSetAndNonEmpty,
    /// `${VAR+alternative}`.
    AlternativeIfSet,
}

/// How one expression contributed to the resolved value.
#[derive(Debug, Clone, Copy, PartialEq, Eq, Hash, Structural)]
pub enum SubstitutionOutcome {
    /// An environment value was inserted.
    Environment,
    /// A default operand was inserted.
    Default,
    /// An alternative operand was inserted.
    Alternative,
    /// The expression intentionally produced an empty string.
    Empty,
    /// A direct variable was unset.
    Missing,
    /// A required variable was unset or empty.
    RequiredMissing,
}

/// What one evaluated expression records: the variable name, operator, outcome and whether
/// it inserted sensitive content.
pub struct SubstitutionRecord {
    /// The referenced variable name.
    pub name: Seq<char>,
    /// The expression operator.
    pub operator: InterpolationOperator,
    /// How the expression contributed to the result.
    pub outcome: SubstitutionOutcome,
    /// Whether the expression inserted sensitive content.
    pub sensitive: bool,
}

/// Provenance for one evaluated variable expression.
#[derive(Debug, Clone, PartialEq, Eq)]
pub struct Substitution {
    name: String,
    operator: InterpolationOperator,
    outcome: SubstitutionOutcome,
    span: SourceSpan,
    sensitive: bool,
}

impl Substitution {
    /// The record of the expression, without its span.
    pub closed spec fn record(&self) -> SubstitutionRecord {
        SubstitutionRecord {
            name: self.name@,
            operator: self.operator,
            outcome: self.outcome,
            sensitive: self.sensitive,
        }
    }

    /// The containing scalar's source span.
    pub closed spec fn spec_span(&self) -> SourceSpan {
        self.span
    }

    /// Returns the referenced variable name.
    pub fn name(&self) -> (r: &str)
        ensures
            r@ == self.record().name,
    {
        self.name.as_str()
    }

    /// Returns the expression operator.
    pub fn operator(&self) -> (r: InterpolationOperator)
        ensures
            r == self.record().operator,
    {
        self.operator
    }

    /// Returns how the expression contributed to the result.
    pub fn outcome(&self) -> (r: SubstitutionOutcome)
        ensures
            r == self.record().outcome,
    {
        self.outcome
    }

    /// Returns the containing scalar's source span.
    pub fn span(&self) -> (r: SourceSpan)
        ensures
            r == self.spec_span(),
    {
        self.span
    }

    /// Reports whether this substitution inserted sensitive content.
    pub fn is_sensitive(&self) -> (r: bool)
        ensures
            r == self.record().sensitive,
    {
        self.sensitive
    }
}

/// The records of a list of substitutions.
pub open spec fn records(s: Seq<Substitution>) -> Seq<SubstitutionRecord> {
    s.map_values(|x: Substitution| x.record())
}

/// Every substitution of the list points at `span`.
pub open spec fn all_at(s: Seq<Substitution>, span: SourceSpan) -> bool {
    forall|i: int| 0 <= i < s.len() ==> #[trigger] s[i].spec_span() == span
}

/// A recoverable, non-destructive interpolation result.
#[derive(Clone, PartialEq, Eq)]
pub struct InterpolationResult {
    original: String,
    resolved: String,
    span: SourceSpan,
    sensitive: bool,
    substitutions: Vec<Substitution>,
    diagnostics: Vec<Diagnostic>,
}

impl InterpolationResult {
    /// The uninterpolated scalar.
    pub closed spec fn spec_original(&self) -> Seq<char> {
        self.original@
    }

    /// The recovered resolved value.
    pub closed spec fn spec_resolved(&self) -> Seq<char> {
        self.resolved@
    }

    /// The source span of the containing scalar.
    pub closed spec fn spec_span(&self) -> SourceSpan {
        self.span
    }

    /// Whether the input or an inserted value is sensitive.
    pub closed spec fn spec_sensitive(&self) -> bool {
        self.sensitive
    }

    /// The evaluated expressions in evaluation order.
    pub closed spec fn spec_substitutions(&self) -> Seq<Substitution> {
        self.substitutions@
    }

    /// The interpolation diagnostics.
    pub closed spec fn spec_diagnostics(&self) -> Seq<Diagnostic> {
        self.diagnostics@
    }

    /// Returns the uninterpolated semantic scalar.
    pub fn original(&self) -> (r: &str)
        ensures
            r@ == self.spec_original(),
    {
        self.original.as_str()
    }

    /// Returns the recovered resolved value.
    ///
    /// Required-variable and invalid-expression errors retain the offending expression so callers
    /// can continue analysis without silently losing source intent.
    pub fn resolved(&self) -> (r: &str)
        ensures
            r@ == self.spec_resolved(),
    {
        self.resolved.as_str()
    }

    /// Returns the source span of the containing scalar.
    pub fn span(&self) -> (r: SourceSpan)
        ensures
            r == self.spec_span(),
    {
        self.span
    }

    /// Reports whether the input or an inserted value is sensitive.
    pub fn is_sensitive(&self) -> (r: bool)
        ensures
            r == self.spec_sensitive(),
    {
        self.sensitive
    }

    /// Returns evaluated expressions in evaluation order.
    pub fn substitutions(&self) -> (r: &[Substitution])
        ensures
            r@ == self.spec_substitutions(),
    {
        self.substitutions.as_slice()
    }

    /// Returns interpolation diagnostics.
    pub fn diagnostics(&self) -> (r: &[Diagnostic])
        ensures
            r@ == self.spec_diagnostics(),
    {
        self.diagnostics.as_slice()
    }

    /// Reports whether interpolation emitted no error diagnostics.
    pub fn is_valid(&self) -> (r: bool)
        ensures
            r == !has_error(self.spec_diagnostics()),
    {
        !any_error(self.diagnostics.as_slice())
    }
}

/// A non-destructive interpolation overlay for one syntax document.
#[derive(Clone, PartialEq, Eq)]
pub struct DocumentInterpolation {
    source_id: SourceId,
    values: Vec<InterpolationResult>,
    diagnostics: Vec<Diagnostic>,
}

impl DocumentInterpolation {
    /// The interpolated source-document identifier.
    pub closed spec fn spec_source_id(&self) -> SourceId {
        self.source_id
    }

    /// The value-scalar results in source order.
    pub closed spec fn spec_values(&self) -> Seq<InterpolationResult> {
        self.values@
    }

    /// The aggregated diagnostics in source order.
    pub closed spec fn spec_diagnostics(&self) -> Seq<Diagnostic> {
        self.diagnostics@
    }

    /// Returns the interpolated source-document identifier.
    pub fn source_id(&self) -> (r: SourceId)
        ensures
            r == self.spec_source_id(),
    {
        self.source_id
    }

    /// Returns eligible value-scalar results in source order.
    pub fn values(&self) -> (r: &[InterpolationResult])
        ensures
            r@ == self.spec_values(),
    {
        self.values.as_slice()
    }

    /// Finds the result for an exact value-scalar span.
    pub fn value(&self, span: SourceSpan) -> (r: Option<&InterpolationResult>)
        ensures
            r is None <==> forall|i: int|
                0 <= i < self.spec_values().len() ==> #[trigger] self.spec_values()[i].spec_span() != span,
            r matches Some(v) ==> exists|i: int|
                0 <= i < self.spec_values().len() && *v == self.spec_values()[i] && v.spec_span() == span
                    && forall|j: int| 0 <= j < i ==> #[trigger] self.spec_values()[j].spec_span() != span,
    {
        let mut i: usize = 0;
        while i < self.values.len()
            invariant
                0 <= i <= self.values.len(),
                forall|j: int| 0 <= j < i ==> #[trigger] self.values@[j].spec_span() != span,
            decreases self.values.len() - i,
        {
            if self.values[i].span == span {
                assert(self.spec_values()[i as int].spec_span() == span);
                return Some(&self.values[i]);
            }
            i += 1;
        }
        None
    }

    /// Returns aggregated interpolation diagnostics in source order.
    pub fn diagnostics(&self) -> (r: &[Diagnostic])
        ensures
            r@ == self.spec_diagnostics(),
    {
        self.diagnostics.as_slice()
    }

    /// Reports whether no value produced an error diagnostic.
    pub fn is_valid(&self) -> (r: bool)
        ensures
            r == !has_error(self.spec_diagnostics()),
    {
        !any_error(self.diagnostics.as_slice())
    }
}

/// A diagnostic condition met while interpolating.
pub enum InterpolationIssue {
    /// Nested interpolation exceeded the configured depth.
    NestingLimit,
    /// A direct substitution named an unset variable.
    UnsetVariable {
        /// The variable name.
        name: Seq<char>,
        /// The severity that the missing-variable policy assigns.
        severity: Severity,
    },
    /// A required variable was unset or empty.
    RequiredVariable {
        /// The variable name.
        name: Seq<char>,
    },
    /// A braced expression is malformed, unclosed or unsupported.
    InvalidExpression,
}

/// What interpolating a piece of text yields: the resolved bytes, whether sensitive content
/// was inserted, the evaluated expressions in order and the diagnostic conditions in order.
pub struct Interpolated {
    /// The resolved UTF-8 bytes.
    pub value: Seq<u8>,
    /// Whether sensitive content was inserted.
    pub sensitive: bool,
    /// The evaluated expressions in evaluation order.
    pub records: Seq<SubstitutionRecord>,
    /// The diagnostic conditions in the order they were met.
    pub issues: Seq<InterpolationIssue>,
}

/// Text copied as it stands.
pub open spec fn literal(b: Seq<u8>) -> Interpolated {
    Interpolated { value: b, sensitive: false, records: seq![], issues: seq![] }
}

/// One piece of output followed by another.
pub open spec fn then(a: Interpolated, b: Interpolated) -> Interpolated {
    Interpolated {
        value: a.value + b.value,
        sensitive: a.sensitive || b.sensitive,
        records: a.records + b.records,
        issues: a.issues + b.issues,
    }
}

/// Text kept as authored because it could not be interpreted.
pub open spec fn kept(b: Seq<u8>, issue: InterpolationIssue) -> Interpolated {
    Interpolated { value: b, sensitive: false, records: seq![], issues: seq![issue] }
}

/// The byte `$`.
pub open spec fn dollar() -> Seq<u8> {
    seq![36u8]
}

/// A byte that can start a variable name: `_` or an ASCII letter.
pub open spec fn is_name_start(c: u8) -> bool {
    c == 95 || is_alpha(c)
}

/// A byte that can continue a variable name: a name start or an ASCII digit.
pub open spec fn is_name_continue(c: u8) -> bool {
    is_name_start(c) || is_digit(c)
}

/// The end of the run of name bytes that starts at `i`.
pub open spec fn name_end(t: Seq<u8>, i: int) -> int
    decreases t.len() - i,
{
    if 0 <= i < t.len() && is_name_continue(t[i]) {
        name_end(t, i + 1)
    } else {
        i
    }
}

/// The index of the `}` that closes a braced expression whose body starts at `c`, with
/// `depth` expressions open, or `-1`. A `${` inside opens one more expression.
pub open spec fn closing_brace(t: Seq<u8>, c: int, depth: nat) -> int
    decreases t.len() - c,
{
    if c < 0 || c >= t.len() {
        -1
    } else if t[c] == 36 && c + 1 < t.len() && t[c + 1] == 123 {
        closing_brace(t, c + 2, depth + 1)
    } else if t[c] == 125 {
        if depth <= 1 {
            c
        } else {
            closing_brace(t, c + 1, (depth - 1) as nat)
        }
    } else {
        closing_brace(t, c + 1, depth)
    }
}

/// The operator that follows a variable name in a braced expression, with its length:
/// nothing, `:-`, `:?`, `:+`, `-`, `?` or `+`.
pub open spec fn operator_of(r: Seq<u8>) -> Option<(InterpolationOperator, int)> {
    if r.len() == 0 {
        Some((InterpolationOperator::Direct, 0))
    } else if r.len() >= 2 && r[0] == 58 && r[1] == 45 {
        Some((InterpolationOperator::DefaultIfUnsetOrEmpty, 2))
    } else if r.len() >= 2 && r[0] == 58 && r[1] == 63 {
        Some((InterpolationOperator::RequiredIfUnsetOrEmpty, 2))
    } else if r.len() >= 2 && r[0] == 58 && r[1] == 43 {
        Some((InterpolationOperator::AlternativeIfSetAndNonEmpty, 2))
    } else if r[0] == 45 {
        Some((InterpolationOperator::DefaultIfUnset, 1))
    } else if r[0] == 63 {
        Some((InterpolationOperator::RequiredIfUnset, 1))
    } else if r[0] == 43 {
        Some((InterpolationOperator::AlternativeIfSet, 1))
    } else {
        None
    }
}

/// A braced expression body read as a name, an operator and the start of its operand.
pub open spec fn parse_braced(e: Seq<u8>) -> Option<(int, InterpolationOperator, int)> {
    if e.len() == 0 || !is_name_start(e[0]) {
        None
    } else {
        let n = name_end(e, 1);
        match operator_of(e.subrange(n, e.len() as int)) {
            None => None,
            Some((op, k)) => Some((n, op, n + k)),
        }
    }
}

/// The record of one evaluated expression.
pub open spec fn record_of(
    name: Seq<char>,
    operator: InterpolationOperator,
    outcome: SubstitutionOutcome,
    sensitive: bool,
) -> SubstitutionRecord {
    SubstitutionRecord { name, operator, outcome, sensitive }
}

/// The output of an expression that inserts a piece of text directly.
pub open spec fn inserted(
    value: Seq<u8>,
    sensitive: bool,
    name: Seq<char>,
    operator: InterpolationOperator,
    outcome: SubstitutionOutcome,
    issues: Seq<InterpolationIssue>,
) -> Interpolated {
    Interpolated {
        value,
        sensitive,
        records: seq![record_of(name, operator, outcome, sensitive)],
        issues,
    }
}

/// The output of an expression that inserts its interpolated operand.
pub open spec fn from_operand(
    operand: Interpolated,
    name: Seq<char>,
    operator: InterpolationOperator,
    outcome: SubstitutionOutcome,
) -> Interpolated {
    Interpolated {
        value: operand.value,
        sensitive: operand.sensitive,
        records: operand.records.push(record_of(name, operator, outcome, operand.sensitive)),
        issues: operand.issues,
    }
}

/// The severity that a missing-variable policy gives an unset direct variable.
pub open spec fn missing_severity(policy: MissingVariablePolicy) -> Severity {
    match policy {
        MissingVariablePolicy::Error => Severity::Error,
        _ => Severity::Warning,
    }
}

/// What one expression yields, given the environment's answer for its name, the
/// missing-variable policy, its operator, its interpolated operand and its authored text.
pub open spec fn evaluation(
    lookup: Option<(Seq<char>, bool)>,
    policy: MissingVariablePolicy,
    name: Seq<char>,
    operator: InterpolationOperator,
    operand: Interpolated,
    original: Seq<u8>,
) -> Interpolated {
    let is_set = lookup is Some;
    let non_empty = is_set && lookup.unwrap().0.len() > 0;
    let value = if is_set { lookup.unwrap() } else { (Seq::<char>::empty(), false) };
    let environment = inserted(
        sb(value.0),
        value.1,
        name,
        operator,
        SubstitutionOutcome::Environment,
        seq![],
    );
    let required = inserted(
        original,
        false,
        name,
        operator,
        SubstitutionOutcome::RequiredMissing,
        seq![InterpolationIssue::RequiredVariable { name }],
    );
    let empty = inserted(seq![], false, name, operator, SubstitutionOutcome::Empty, seq![]);
    match operator {
        InterpolationOperator::Direct => if is_set {
            environment
        } else {
            inserted(
                if policy == MissingVariablePolicy::EmptyWithWarning {
                    seq![]
                } else {
                    original
                },
                false,
                name,
                operator,
                SubstitutionOutcome::Missing,
                seq![InterpolationIssue::UnsetVariable { name, severity: missing_severity(policy) }],
            )
        },
        InterpolationOperator::DefaultIfUnsetOrEmpty => if non_empty {
            environment
        } else {
            from_operand(operand, name, operator, SubstitutionOutcome::Default)
        },
        InterpolationOperator::DefaultIfUnset => if is_set {
            environment
        } else {
            from_operand(operand, name, operator, SubstitutionOutcome::Default)
        },
        InterpolationOperator::RequiredIfUnsetOrEmpty => if non_empty {
            environment
        } else {
            required
        },
        InterpolationOperator::RequiredIfUnset => if is_set {
            environment
        } else {
            required
        },
        InterpolationOperator::AlternativeIfSetAndNonEmpty => if non_empty {
            from_operand(operand, name, operator, SubstitutionOutcome::Alternative)
        } else {
            empty
        },
        InterpolationOperator::AlternativeIfSet => if is_set {
            from_operand(operand, name, operator, SubstitutionOutcome::Alternative)
        } else {
            empty
        },
    }
}

/// The operator table of one expression, given the environment's answer for its name.
///
/// A set, non-empty value is inserted as it stands by every operator but the alternatives, with
/// the `Environment` outcome; the operand is then never used. `:-` uses its operand only when
/// the variable is unset or empty, and `-` only when it is unset; `:?` and `?` keep the
/// expression and report a required variable in the same cases; `:+` and `+` insert their
/// operand in the opposite cases and nothing otherwise. An unset direct reference follows the
/// missing-variable policy.
pub proof fn law_operator_table(
    lookup: Option<(Seq<char>, bool)>,
    policy: MissingVariablePolicy,
    name: Seq<char>,
    operator: InterpolationOperator,
    operand: Interpolated,
    original: Seq<u8>,
)
    ensures
        ({
            let r = evaluation(lookup, policy, name, operator, operand, original);
            let set = lookup is Some;
            let pair = lookup->0;
            let non_empty = set && pair.0.len() > 0;
            let env_value = Interpolated {
                value: sb(pair.0),
                sensitive: pair.1,
                records: seq![
                    SubstitutionRecord {
                        name,
                        operator,
                        outcome: SubstitutionOutcome::Environment,
                        sensitive: pair.1,
                    },
                ],
                issues: seq![],
            };
            let with_operand = |outcome: SubstitutionOutcome|
                Interpolated {
                    value: operand.value,
                    sensitive: operand.sensitive,
                    records: operand.records.push(
                        SubstitutionRecord { name, operator, outcome, sensitive: operand.sensitive },
                    ),
                    issues: operand.issues,
                };
            let required = Interpolated {
                value: original,
                sensitive: false,
                records: seq![
                    SubstitutionRecord {
                        name,
                        operator,
                        outcome: SubstitutionOutcome::RequiredMissing,
                        sensitive: false,
                    },
                ],
                issues: seq![InterpolationIssue::RequiredVariable { name }],
            };
            let nothing = Interpolated {
                value: seq![],
                sensitive: false,
                records: seq![
                    SubstitutionRecord { name, operator, outcome: SubstitutionOutcome::Empty, sensitive: false },
                ],
                issues: seq![],
            };
            &&& non_empty && operator != InterpolationOperator::AlternativeIfSetAndNonEmpty && operator
                != InterpolationOperator::AlternativeIfSet ==> r == env_value
            &&& operator == InterpolationOperator::DefaultIfUnsetOrEmpty ==> r == if non_empty {
                env_value
            } else {
                with_operand(SubstitutionOutcome::Default)
            }
            &&& operator == InterpolationOperator::DefaultIfUnset ==> r == if set {
                env_value
            } else {
                with_operand(SubstitutionOutcome::Default)
            }
            &&& operator == InterpolationOperator::RequiredIfUnsetOrEmpty ==> r == if non_empty {
                env_value
            } else {
                required
            }
            &&& operator == InterpolationOperator::RequiredIfUnset ==> r == if set {
                env_value
            } else {
                required
            }
            &&& operator == InterpolationOperator::AlternativeIfSetAndNonEmpty ==> r == if non_empty {
                with_operand(SubstitutionOutcome::Alternative)
            } else {
                nothing
            }
            &&& operator == InterpolationOperator::AlternativeIfSet ==> r == if set {
                with_operand(SubstitutionOutcome::Alternative)
            } else {
                nothing
            }
            &&& operator == InterpolationOperator::Direct ==> r == if set {
                env_value
            } else {
                Interpolated {
                    value: if policy == MissingVariablePolicy::EmptyWithWarning {
                        seq![]
                    } else {
                        original
                    },
                    sensitive: false,
                    records: seq![
                        SubstitutionRecord {
                            name,
                            operator,
                            outcome: SubstitutionOutcome::Missing,
                            sensitive: false,
                        },
                    ],
                    issues: seq![
                        InterpolationIssue::UnsetVariable {
                            name,
                            severity: if policy == MissingVariablePolicy::Error {
                                Severity::Error
                            } else {
                                Severity::Warning
                            },
                        },
                    ],
                }
            }
        }),
{
}

/// `name_end` stays within the text and after its start.
pub proof fn lemma_name_end(t: Seq<u8>, i: int)
    requires
        0 <= i <= t.len(),
    ensures
        i <= name_end(t, i) <= t.len(),
        forall|j: int| i <= j < name_end(t, i) ==> is_name_continue(#[trigger] t[j]),
        name_end(t, i) < t.len() ==> !is_name_continue(t[name_end(t, i)]),
    decreases t.len() - i,
{
    if i < t.len() && is_name_continue(t[i]) {
        lemma_name_end(t, i + 1);
    }
}

/// `closing_brace` finds a `}` at or after its start, or nothing.
pub proof fn lemma_closing_brace(t: Seq<u8>, c: int, depth: nat)
    requires
        0 <= c,
    ensures
        closing_brace(t, c, depth) == -1 || (c <= closing_brace(t, c, depth) < t.len() && t[closing_brace(
            t,
            c,
            depth,
        )] == 125),
    decreases t.len() - c,
{
    if c < t.len() {
        if t[c] == 36 && c + 1 < t.len() && t[c + 1] == 123 {
            lemma_closing_brace(t, c + 2, depth + 1);
        } else if t[c] == 125 {
            if depth > 1 {
                lemma_closing_brace(t, c + 1, (depth - 1) as nat);
            }
        } else {
            lemma_closing_brace(t, c + 1, depth);
        }
    }
}

/// A parsed braced expression has a non-empty name and an operand inside the body.
pub proof fn lemma_parse_braced(e: Seq<u8>)
    ensures
        parse_braced(e) matches Some((n, op, k)) ==> 1 <= n <= k <= e.len() && is_name_start(e[0])
            && (forall|j: int| 0 <= j < n ==> is_name_continue(#[trigger] e[j]))
            && (n < e.len() ==> !is_name_continue(e[n])),
{
    if e.len() > 0 && is_name_start(e[0]) {
        lemma_name_end(e, 1);
    }
}

/// What one braced expression with body `e` and authored text `original` yields.
pub open spec fn braced_piece<E: EnvironmentProvider>(
    env: &E,
    options: InterpolationOptions,
    e: Seq<u8>,
    original: Seq<u8>,
    depth: nat,
) -> Interpolated
    decreases e.len(), 0int,
{
    proof {
        lemma_parse_braced(e);
    }
    match parse_braced(e) {
        None => kept(original, InterpolationIssue::InvalidExpression),
        Some((n, op, k)) => evaluation(
            env.lookup(decode_utf8(e.subrange(0, n))),
            options.spec_missing_variable(),
            decode_utf8(e.subrange(0, n)),
            op,
            interp(env, options, e.subrange(k, e.len() as int), depth + 1),
            original,
        ),
    }
}

/// What interpolating `t` at nesting depth `depth` yields.
pub open spec fn interp<E: EnvironmentProvider>(
    env: &E,
    options: InterpolationOptions,
    t: Seq<u8>,
    depth: nat,
) -> Interpolated
    decreases t.len(), t.len() + 1int,
{
    if depth > options.spec_max_nesting() {
        kept(t, InterpolationIssue::NestingLimit)
    } else {
        scan(env, options, t, 0, depth)
    }
}

/// What interpolating the part of `t` from byte `c` on yields.
pub open spec fn scan<E: EnvironmentProvider>(
    env: &E,
    options: InterpolationOptions,
    t: Seq<u8>,
    c: int,
    depth: nat,
) -> Interpolated
    decreases t.len(), t.len() - c,
{
    if c < 0 || c > t.len() {
        literal(seq![])
    } else {
        let d = find_from(t, 36, c);
        proof {
            lemma_find_from(t, 36, c);
        }
        if d < 0 {
            literal(t.subrange(c, t.len() as int))
        } else {
            let pre = literal(t.subrange(c, d));
            let a = d + 1;
            if a >= t.len() {
                then(pre, literal(dollar()))
            } else if t[a] == 36 {
                then(pre, then(literal(dollar()), scan(env, options, t, a + 1, depth)))
            } else if t[a] == 123 {
                let close = closing_brace(t, a + 1, 1);
                proof {
                    lemma_closing_brace(t, a + 1, 1);
                }
                if close < 0 {
                    then(pre, kept(t.subrange(d, t.len() as int), InterpolationIssue::InvalidExpression))
                } else {
                    let e = t.subrange(a + 1, close);
                    let piece = braced_piece(env, options, e, t.subrange(d, close + 1), depth);
                    then(pre, then(piece, scan(env, options, t, close + 1, depth)))
                }
            } else if is_name_start(t[a]) {
                proof {
                    lemma_name_end(t, a + 1);
                }
                let end = name_end(t, a + 1);
                let name = decode_utf8(t.subrange(a, end));
                let piece = evaluation(
                    env.lookup(name),
                    options.spec_missing_variable(),
                    name,
                    InterpolationOperator::Direct,
                    interp(env, options, seq![], depth + 1),
                    t.subrange(d, end),
                );
                then(pre, then(piece, scan(env, options, t, end, depth)))
            } else {
                then(pre, then(literal(dollar()), scan(env, options, t, a, depth)))
            }
        }
    }
}

/// The diagnostic code of an issue.
pub open spec fn issue_code(issue: InterpolationIssue) -> Seq<char> {
    match issue {
        InterpolationIssue::NestingLimit => "compose.interpolation.nesting-limit"@,
        InterpolationIssue::UnsetVariable { .. } => "compose.interpolation.unset-variable"@,
        InterpolationIssue::RequiredVariable { .. } => "compose.interpolation.required-variable"@,
        InterpolationIssue::InvalidExpression => "compose.interpolation.invalid-expression"@,
    }
}

/// The severity of an issue.
pub open spec fn issue_severity(issue: InterpolationIssue) -> Severity {
    match issue {
        InterpolationIssue::UnsetVariable { severity, .. } => severity,
        _ => Severity::Error,
    }
}

/// The summary text of an issue.
pub open spec fn issue_message(issue: InterpolationIssue) -> Seq<char> {
    match issue {
        InterpolationIssue::NestingLimit => "interpolation nesting exceeds the configured safety limit"@,
        InterpolationIssue::UnsetVariable { name, .. } => "interpolation variable `"@ + name
            + "` is not set"@,
        InterpolationIssue::RequiredVariable { name } => "required interpolation variable `"@ + name
            + "` is unset or empty"@,
        InterpolationIssue::InvalidExpression => "interpolation expression is malformed or unsupported"@,
    }
}

/// The text of the primary label of an issue.
pub open spec fn issue_label(issue: InterpolationIssue) -> Seq<char> {
    match issue {
        InterpolationIssue::NestingLimit => "nested expression limit reached"@,
        InterpolationIssue::UnsetVariable { .. } => "unresolved variable expression"@,
        InterpolationIssue::RequiredVariable { .. } => "required variable is unavailable"@,
        InterpolationIssue::InvalidExpression => "invalid interpolation expression"@,
    }
}

/// `d` reports `issue` with one primary label on `span`.
pub open spec fn reports(d: Diagnostic, issue: InterpolationIssue, span: SourceSpan) -> bool {
    &&& d.spec_code().text() == issue_code(issue)
    &&& d.spec_severity() == issue_severity(issue)
    &&& d.spec_message() == issue_message(issue)
    &&& d.spec_labels().len() == 1
    &&& d.spec_labels()[0].spec_kind() == LabelKind::Primary
    &&& d.spec_labels()[0].spec_span() == span
    &&& d.spec_labels()[0].spec_message() == issue_label(issue)
    &&& d.spec_notes().len() == 0
}

/// The diagnostics report the issues one for one, in order.
pub open spec fn reports_all(ds: Seq<Diagnostic>, issues: Seq<InterpolationIssue>, span: SourceSpan) -> bool {
    &&& ds.len() == issues.len()
    &&& forall|i: int| 0 <= i < ds.len() ==> reports(#[trigger] ds[i], issues[i], span)
}

/// Builds the diagnostic for an issue.
fn issue_diagnostic(issue: &IssueKind, name: &str, span: SourceSpan) -> (d: Diagnostic)
    ensures
        reports(d, issue.spec_issue(name@), span),
{
    match issue {
        IssueKind::NestingLimit => Diagnostic::new(
            DiagnosticCode::new("compose.interpolation.nesting-limit"),
            Severity::Error,
            owned("interpolation nesting exceeds the configured safety limit"),
        ).with_label(DiagnosticLabel::primary(span, owned("nested expression limit reached"))),
        IssueKind::UnsetVariable(severity) => {
            let mut message = owned("interpolation variable `");
            message.append(name);
            message.append("` is not set");
            Diagnostic::new(
                DiagnosticCode::new("compose.interpolation.unset-variable"),
                *severity,
                message,
            ).with_label(DiagnosticLabel::primary(span, owned("unresolved variable expression")))
        },
        IssueKind::RequiredVariable => {
            let mut message = owned("required interpolation variable `");
            message.append(name);
            message.append("` is unset or empty");
            Diagnostic::new(
                DiagnosticCode::new("compose.interpolation.required-variable"),
                Severity::Error,
                message,
            ).with_label(DiagnosticLabel::primary(span, owned("required variable is unavailable")))
        },
        IssueKind::InvalidExpression => Diagnostic::new(
            DiagnosticCode::new("compose.interpolation.invalid-expression"),
            Severity::Error,
            owned("interpolation expression is malformed or unsupported"),
        ).with_label(DiagnosticLabel::primary(span, owned("invalid interpolation expression"))),
    }
}

/// The kind of an issue, without the variable name it may carry.
enum IssueKind {
    NestingLimit,
    UnsetVariable(Severity),
    RequiredVariable,
    InvalidExpression,
}

impl IssueKind {
    /// The issue of this kind for a variable name.
    spec fn spec_issue(&self, name: Seq<char>) -> InterpolationIssue {
        match self {
            IssueKind::NestingLimit => InterpolationIssue::NestingLimit,
            IssueKind::UnsetVariable(severity) => InterpolationIssue::UnsetVariable {
                name,
                severity: *severity,
            },
            IssueKind::RequiredVariable => InterpolationIssue::RequiredVariable { name },
            IssueKind::InvalidExpression => InterpolationIssue::InvalidExpression,
        }
    }
}

/// A resolved piece of text and whether it carries sensitive content.
struct Fragment {
    value: String,
    sensitive: bool,
}

/// The state of one interpolation: the environment, the options, the scalar's span and
/// the substitutions and diagnostics recorded so far.
struct Context<'a, E: EnvironmentProvider> {
    environment: &'a E,
    options: InterpolationOptions,
    span: SourceSpan,
    diagnostics: Vec<Diagnostic>,
    substitutions: Vec<Substitution>,
}

/// `b` is `a` with `records` and `issues` recorded after what `a` holds.
spec fn extends<'a, E: EnvironmentProvider>(
    a: Context<'a, E>,
    b: Context<'a, E>,
    records: Seq<SubstitutionRecord>,
    issues: Seq<InterpolationIssue>,
) -> bool {
    let ns = a.substitutions@.len();
    let nd = a.diagnostics@.len();
    &&& b.environment == a.environment
    &&& b.options == a.options
    &&& b.span == a.span
    &&& b.substitutions@.len() == ns + records.len()
    &&& b.substitutions@.subrange(0, ns as int) == a.substitutions@
    &&& forall|i: int|
        0 <= i < records.len() ==> (#[trigger] b.substitutions@[ns + i]).record() == records[i]
            && b.substitutions@[ns + i].spec_span() == b.span
    &&& b.diagnostics@.len() == nd + issues.len()
    &&& b.diagnostics@.subrange(0, nd as int) == a.diagnostics@
    &&& forall|i: int| 0 <= i < issues.len() ==> reports(#[trigger] b.diagnostics@[nd + i], issues[i], b.span)
}

proof fn lemma_extends_refl<'a, E: EnvironmentProvider>(a: Context<'a, E>)
    ensures
        extends(a, a, seq![], seq![]),
{
    assert(a.substitutions@.subrange(0, a.substitutions@.len() as int) =~= a.substitutions@);
    assert(a.diagnostics@.subrange(0, a.diagnostics@.len() as int) =~= a.diagnostics@);
}

proof fn lemma_extends_trans<'a, E: EnvironmentProvider>(
    a: Context<'a, E>,
    b: Context<'a, E>,
    c: Context<'a, E>,
    r1: Seq<SubstitutionRecord>,
    i1: Seq<InterpolationIssue>,
    r2: Seq<SubstitutionRecord>,
    i2: Seq<InterpolationIssue>,
)
    requires
        extends(a, b, r1, i1),
        extends(b, c, r2, i2),
    ensures
        extends(a, c, r1 + r2, i1 + i2),
{
    let ns = a.substitutions@.len() as int;
    let nd = a.diagnostics@.len() as int;
    let ms = b.substitutions@.len() as int;
    let md = b.diagnostics@.len() as int;
    assert(c.substitutions@.subrange(0, ns) =~= a.substitutions@) by {
        assert forall|j: int| 0 <= j < ns implies c.substitutions@[j] == a.substitutions@[j] by {
            assert(c.substitutions@.subrange(0, ms)[j] == c.substitutions@[j]);
            assert(b.substitutions@.subrange(0, ns)[j] == b.substitutions@[j]);
        }
    }
    assert(c.diagnostics@.subrange(0, nd) =~= a.diagnostics@) by {
        assert forall|j: int| 0 <= j < nd implies c.diagnostics@[j] == a.diagnostics@[j] by {
            assert(c.diagnostics@.subrange(0, md)[j] == c.diagnostics@[j]);
            assert(b.diagnostics@.subrange(0, nd)[j] == b.diagnostics@[j]);
        }
    }
    assert forall|i: int| 0 <= i < (r1 + r2).len() implies (#[trigger] c.substitutions@[ns + i]).record() == (r1
        + r2)[i] && c.substitutions@[ns + i].spec_span() == c.span by {
        if i < r1.len() {
            assert(b.substitutions@[ns + i].record() == r1[i]);
            assert(c.substitutions@.subrange(0, ms)[ns + i] == c.substitutions@[ns + i]);
        } else {
            assert(c.substitutions@[ms + (i - r1.len())].record() == r2[i - r1.len()]);
        }
    }
    assert forall|i: int| 0 <= i < (i1 + i2).len() implies reports(
        #[trigger] c.diagnostics@[nd + i],
        (i1 + i2)[i],
        c.span,
    ) by {
        if i < i1.len() {
            assert(reports(b.diagnostics@[nd + i], i1[i], b.span));
            assert(c.diagnostics@.subrange(0, md)[nd + i] == c.diagnostics@[nd + i]);
        } else {
            assert(reports(c.diagnostics@[md + (i - i1.len())], i2[i - i1.len()], c.span));
        }
    }
}

/// Appending `more` to `a` gives `a + more`.
proof fn lemma_then_assoc(a: Interpolated, b: Interpolated, c: Interpolated)
    ensures
        then(then(a, b), c) == then(a, then(b, c)),
{
    assert(then(then(a, b), c).value =~= then(a, then(b, c)).value);
    assert(then(then(a, b), c).records =~= then(a, then(b, c)).records);
    assert(then(then(a, b), c).issues =~= then(a, then(b, c)).issues);
}

/// Appending nothing changes nothing.
proof fn lemma_then_empty(a: Interpolated)
    ensures
        then(a, literal(seq![])) == a,
        then(literal(seq![]), a) == a,
{
    assert(then(a, literal(seq![])).value =~= a.value);
    assert(then(a, literal(seq![])).records =~= a.records);
    assert(then(a, literal(seq![])).issues =~= a.issues);
    assert(then(literal(seq![]), a).value =~= a.value);
    assert(then(literal(seq![]), a).records =~= a.records);
    assert(then(literal(seq![]), a).issues =~= a.issues);
}

/// Reports whether a byte can start a variable name.
fn name_start_byte(c: u8) -> (r: bool)
    ensures
        r == is_name_start(c),
{
    c == 95 || (65 <= c && c <= 90) || (97 <= c && c <= 122)
}

/// Reports whether a byte can continue a variable name.
fn name_continue_byte(c: u8) -> (r: bool)
    ensures
        r == is_name_continue(c),
{
    name_start_byte(c) || (48 <= c && c <= 57)
}

/// Returns the end of the run of name bytes that starts at `i`.
fn scan_name(b: &[u8], i: usize) -> (r: usize)
    requires
        i <= b@.len(),
    ensures
        r == name_end(b@, i as int),
{
    let mut j = i;
    while j < b.len() && name_continue_byte(b[j])
        invariant
            i <= j <= b@.len(),
            name_end(b@, i as int) == name_end(b@, j as int),
        decreases b@.len() - j,
    {
        j += 1;
    }
    j
}

/// Returns the index of the `}` that closes a braced expression whose body starts at `start`.
fn find_closing_brace(text: &str, start: usize) -> (r: Option<usize>)
    requires
        start <= sb(text@).len(),
    ensures
        r is None <==> closing_brace(sb(text@), start as int, 1) == -1,
        r matches Some(i) ==> i == closing_brace(sb(text@), start as int, 1),
{
    let b = bytes(text);
    let mut depth: usize = 1;
    let mut cursor = start;
    while cursor < b.len()
        invariant
            b@ == sb(text@),
            start <= cursor <= b@.len(),
            1 <= depth <= cursor - start + 1,
            closing_brace(b@, start as int, 1) == closing_brace(b@, cursor as int, depth as nat),
        decreases b@.len() - cursor,
    {
        if b[cursor] == 36 && cursor + 1 < b.len() && b[cursor + 1] == 123 {
            depth += 1;
            cursor += 2;
        } else if b[cursor] == 125 {
            if depth <= 1 {
                return Some(cursor);
            }
            depth -= 1;
            cursor += 1;
        } else {
            cursor += 1;
        }
    }
    None
}

/// Returns the operator after a variable name and its length.
fn operator_after(r: &[u8]) -> (o: Option<(InterpolationOperator, usize)>)
    ensures
        o is None <==> operator_of(r@) is None,
        o matches Some((op, k)) ==> operator_of(r@) == Some((op, k as int)),
{
    if r.len() == 0 {
        Some((InterpolationOperator::Direct, 0))
    } else if r.len() >= 2 && r[0] == 58 && r[1] == 45 {
        Some((InterpolationOperator::DefaultIfUnsetOrEmpty, 2))
    } else if r.len() >= 2 && r[0] == 58 && r[1] == 63 {
        Some((InterpolationOperator::RequiredIfUnsetOrEmpty, 2))
    } else if r.len() >= 2 && r[0] == 58 && r[1] == 43 {
        Some((InterpolationOperator::AlternativeIfSetAndNonEmpty, 2))
    } else if r[0] == 45 {
        Some((InterpolationOperator::DefaultIfUnset, 1))
    } else if r[0] == 63 {
        Some((InterpolationOperator::RequiredIfUnset, 1))
    } else if r[0] == 43 {
        Some((InterpolationOperator::AlternativeIfSet, 1))
    } else {
        None
    }
}

/// Splits a braced expression body into its name, operator and operand.
fn parse_braced_expression(expression: &str) -> (r: Option<(&str, InterpolationOperator, &str)>)
    ensures
        r is None <==> parse_braced(sb(expression@)) is None,
        r matches Some((name, op, operand)) ==> parse_braced(sb(expression@)) matches Some((n, op2, k))
            && op == op2 && sb(name@) == sb(expression@).subrange(0, n) && sb(operand@) == sb(
            expression@,
        ).subrange(k, sb(expression@).len() as int),
{
    let b = bytes(expression);
    if b.len() == 0 || !name_start_byte(b[0]) {
        return None;
    }
    let name_end = scan_name(b, 1);
    proof {
        lemma_name_end(b@, 1);
    }
    let (_, remainder) = b.split_at(name_end);
    assert(remainder@ == b@.subrange(name_end as int, b@.len() as int));
    match operator_after(remainder) {
        None => None,
        Some((operator, k)) => {
            proof {
                lemma_after_ascii(b@, name_end - 1);
                if k > 0 {
                    lemma_after_ascii(b@, name_end + k - 1);
                }
            }
            let name = slice(expression, 0, name_end);
            let operand = slice(expression, name_end + k, b.len());
            Some((name, operator, operand))
        },
    }
}

/// Appends a piece of text.
fn push_text(s: &mut String, piece: &str)
    ensures
        sb(final(s)@) == sb(old(s)@) + sb(piece@),
{
    proof {
        lemma_sb_concat(s@, piece@);
    }
    s.append(piece);
}

/// Appends the dollar sign that `text` holds at byte `i`.
fn push_dollar(s: &mut String, text: &str, i: usize)
    requires
        i < sb(text@).len(),
        sb(text@)[i as int] == 36,
    ensures
        sb(final(s)@) == sb(old(s)@) + dollar(),
{
    proof {
        lemma_ascii_boundary(sb(text@), i as int);
        lemma_after_ascii(sb(text@), i as int);
    }
    let n = crate::text::len(text);
    let sign = slice(text, i, i + 1);
    assert(sb(sign@) =~= dollar());
    push_text(s, sign);
}

/// `f` holds the text and sensitivity of `o`.
spec fn holds(f: Fragment, o: Interpolated) -> bool {
    sb(f.value@) == o.value && f.sensitive == o.sensitive
}

impl<'a, E: EnvironmentProvider> Context<'a, E> {
    /// Records the diagnostic of an issue.
    fn report(&mut self, issue: IssueKind, name: &str)
        ensures
            extends(*old(self), *final(self), seq![], seq![issue.spec_issue(name@)]),
    {
        let d = issue_diagnostic(&issue, name, self.span);
        let ghost before = *self;
        self.diagnostics.push(d);
        proof {
            let nd = before.diagnostics@.len() as int;
            assert(self.substitutions@.subrange(0, before.substitutions@.len() as int) =~= before.substitutions@);
            assert(self.diagnostics@.subrange(0, nd) =~= before.diagnostics@);
            assert(self.diagnostics@[nd + 0] == d);
        }
    }

    /// Records one evaluated expression.
    fn record(&mut self, name: &str, operator: InterpolationOperator, outcome: SubstitutionOutcome, sensitive: bool)
        ensures
            extends(*old(self), *final(self), seq![record_of(name@, operator, outcome, sensitive)], seq![]),
    {
        let substitution = Substitution { name: owned(name), operator, outcome, span: self.span, sensitive };
        let ghost before = *self;
        self.substitutions.push(substitution);
        proof {
            let ns = before.substitutions@.len() as int;
            assert(self.substitutions@.subrange(0, ns) =~= before.substitutions@);
            assert(self.substitutions@[ns + 0] == substitution);
            assert(self.diagnostics@.subrange(0, before.diagnostics@.len() as int) =~= before.diagnostics@);
        }
    }

    /// Interpolates a piece of text at a nesting depth.
    fn interpolate_text(&mut self, text: &str, depth: usize) -> (f: Fragment)
        requires
            depth + sb(text@).len() <= usize::MAX,
        ensures
            holds(f, interp(old(self).environment, old(self).options, sb(text@), depth as nat)),
            extends(
                *old(self),
                *final(self),
                interp(old(self).environment, old(self).options, sb(text@), depth as nat).records,
                interp(old(self).environment, old(self).options, sb(text@), depth as nat).issues,
            ),
        decreases sb(text@).len(), 1int,
    {
        let ghost t = sb(text@);
        let ghost env = self.environment;
        let ghost opts = self.options;
        if depth > self.options.max_nesting {
            self.report(IssueKind::NestingLimit, "");
            return Fragment { value: owned(text), sensitive: false };
        }
        let b = bytes(text);
        let n = b.len();
        let mut resolved = String::new();
        let mut sensitive = false;
        let mut cursor: usize = 0;
        let mut done = false;
        let ghost start = *self;
        let ghost mut acc = literal(seq![]);
        proof {
            lemma_extends_refl(start);
            lemma_then_empty(scan(env, opts, t, 0, depth as nat));
            assert(sb(resolved@) =~= acc.value);
        }
        while !done
            invariant
                b@ == t,
                t == sb(text@),
                n == t.len(),
                depth <= opts.spec_max_nesting(),
                depth + n <= usize::MAX,
                start.environment == env,
                start.options == opts,
                self.environment == env,
                self.options == opts,
                cursor <= n,
                is_char_boundary(t, cursor as int),
                done ==> cursor == n,
                sb(resolved@) == acc.value,
                sensitive == acc.sensitive,
                extends(start, *self, acc.records, acc.issues),
                interp(env, opts, t, depth as nat) == then(
                    acc,
                    if done {
                        literal(seq![])
                    } else {
                        scan(env, opts, t, cursor as int, depth as nat)
                    },
                ),
            decreases n - cursor + if done {
                0int
            } else {
                1int
            },
        {
            let ghost s0 = scan(env, opts, t, cursor as int, depth as nat);
            proof {
                lemma_find_from(t, 36, cursor as int);
            }
            match crate::text::find_byte_from(text, 36, cursor) {
                None => {
                    let rest = crate::text::slice_from(text, cursor);
                    push_text(&mut resolved, rest);
                    proof {
                        let piece = literal(t.subrange(cursor as int, n as int));
                        assert(s0 == piece);
                        acc = then(acc, piece);
                        assert(acc.records =~= acc.records);
                        lemma_then_empty(acc);
                    }
                    cursor = n;
                    done = true;
                },
                Some(mark) => {
                    proof {
                        lemma_ascii_boundary(t, mark as int);
                        lemma_after_ascii(t, mark as int);
                    }
                    let pre_text = slice(text, cursor, mark);
                    push_text(&mut resolved, pre_text);
                    let ghost pre = literal(t.subrange(cursor as int, mark as int));
                    let after = mark + 1;
                    if after == n {
                        push_dollar(&mut resolved, text, mark);
                        proof {
                            assert(s0 == then(pre, literal(dollar())));
                            lemma_then_assoc(acc, pre, literal(dollar()));
                            let acc2 = then(then(acc, pre), literal(dollar()));
                            assert(acc2.records =~= acc.records);
                            assert(acc2.issues =~= acc.issues);
                            acc = acc2;
                            lemma_then_empty(acc);
                        }
                        cursor = n;
                        done = true;
                    } else {
                        let next = b[after];
                        if next == 36 {
                            push_dollar(&mut resolved, text, after);
                            proof {
                                lemma_after_ascii(t, after as int);
                                let rest = scan(env, opts, t, after + 1, depth as nat);
                                assert(s0 == then(pre, then(literal(dollar()), rest)));
                                lemma_then_assoc(acc, pre, then(literal(dollar()), rest));
                                lemma_then_assoc(then(acc, pre), literal(dollar()), rest);
                                let acc2 = then(then(acc, pre), literal(dollar()));
                                assert(acc2.records =~= acc.records);
                                assert(acc2.issues =~= acc.issues);
                                acc = acc2;
                            }
                            cursor = after + 1;
                        } else if next == 123 {
                            let expression_start = after + 1;
                            proof {
                                lemma_after_ascii(t, after as int);
                                lemma_closing_brace(t, expression_start as int, 1);
                            }
                            match find_closing_brace(text, expression_start) {
                                None => {
                                    let ghost mid = *self;
                                    self.report(IssueKind::InvalidExpression, "");
                                    let rest_text = crate::text::slice_from(text, mark);
                                    push_text(&mut resolved, rest_text);
                                    proof {
                                        let piece = kept(
                                            t.subrange(mark as int, n as int),
                                            InterpolationIssue::InvalidExpression,
                                        );
                                        assert(s0 == then(pre, piece));
                                        lemma_then_assoc(acc, pre, piece);
                                        let acc2 = then(then(acc, pre), piece);
                                        assert(acc2.records =~= acc.records + seq![]);
                                        assert(acc2.issues =~= acc.issues + seq![
                                            InterpolationIssue::InvalidExpression,
                                        ]);
                                        lemma_extends_trans(
                                            start,
                                            mid,
                                            *self,
                                            acc.records,
                                            acc.issues,
                                            seq![],
                                            seq![InterpolationIssue::InvalidExpression],
                                        );
                                        acc = acc2;
                                        lemma_then_empty(acc);
                                    }
                                    cursor = n;
                                    done = true;
                                },
                                Some(close) => {
                                    proof {
                                        lemma_ascii_boundary(t, close as int);
                                        lemma_after_ascii(t, close as int);
                                    }
                                    let expression = slice(text, expression_start, close);
                                    let original = slice(text, mark, close + 1);
                                    let ghost mid = *self;
                                    let fragment = self.evaluate_braced(expression, original, depth);
                                    push_text(&mut resolved, fragment.value.as_str());
                                    sensitive = sensitive || fragment.sensitive;
                                    proof {
                                        let e = t.subrange(expression_start as int, close as int);
                                        let piece = braced_piece(env, opts, e, t.subrange(mark as int, close + 1), depth as nat);
                                        let rest = scan(env, opts, t, close + 1, depth as nat);
                                        assert(s0 == then(pre, then(piece, rest)));
                                        lemma_then_assoc(acc, pre, then(piece, rest));
                                        lemma_then_assoc(then(acc, pre), piece, rest);
                                        let acc2 = then(then(acc, pre), piece);
                                        assert(acc2.records =~= acc.records + piece.records);
                                        assert(acc2.issues =~= acc.issues + piece.issues);
                                        lemma_extends_trans(start, mid, *self, acc.records, acc.issues, piece.records, piece.issues);
                                        acc = acc2;
                                    }
                                    cursor = close + 1;
                                },
                            }
                        } else if name_start_byte(next) {
                            let end = scan_name(b, after + 1);
                            proof {
                                lemma_name_end(t, after + 1);
                                lemma_after_ascii(t, end - 1);
                            }
                            let name = slice(text, after, end);
                            let original = slice(text, mark, end);
                            let no_operand = slice(text, mark, mark);
                            assert(sb(no_operand@) =~= Seq::<u8>::empty());
                            let ghost mid = *self;
                            let fragment = self.evaluate(name, InterpolationOperator::Direct, no_operand, original, depth);
                            push_text(&mut resolved, fragment.value.as_str());
                            sensitive = sensitive || fragment.sensitive;
                            proof {
                                assert(decode_utf8(t.subrange(after as int, end as int)) == name@);
                                let piece = evaluation(
                                    env.lookup(name@),
                                    opts.spec_missing_variable(),
                                    name@,
                                    InterpolationOperator::Direct,
                                    interp(env, opts, seq![], (depth + 1) as nat),
                                    t.subrange(mark as int, end as int),
                                );
                                let rest = scan(env, opts, t, end as int, depth as nat);
                                assert(s0 == then(pre, then(piece, rest)));
                                lemma_then_assoc(acc, pre, then(piece, rest));
                                lemma_then_assoc(then(acc, pre), piece, rest);
                                let acc2 = then(then(acc, pre), piece);
                                assert(acc2.records =~= acc.records + piece.records);
                                assert(acc2.issues =~= acc.issues + piece.issues);
                                lemma_extends_trans(start, mid, *self, acc.records, acc.issues, piece.records, piece.issues);
                                acc = acc2;
                            }
                            cursor = end;
                        } else {
                            push_dollar(&mut resolved, text, mark);
                            proof {
                                let rest = scan(env, opts, t, after as int, depth as nat);
                                assert(s0 == then(pre, then(literal(dollar()), rest)));
                                lemma_then_assoc(acc, pre, then(literal(dollar()), rest));
                                lemma_then_assoc(then(acc, pre), literal(dollar()), rest);
                                let acc2 = then(then(acc, pre), literal(dollar()));
                                assert(acc2.records =~= acc.records);
                                assert(acc2.issues =~= acc.issues);
                                acc = acc2;
                            }
                            cursor = after;
                        }
                    }
                },
            }
        }
        Fragment { value: resolved, sensitive }
    }

    /// Evaluates one braced expression.
    fn evaluate_braced(&mut self, expression: &str, original: &str, depth: usize) -> (f: Fragment)
        requires
            depth + 1 + sb(expression@).len() <= usize::MAX,
        ensures
            holds(f, braced_piece(old(self).environment, old(self).options, sb(expression@), sb(original@), depth as nat)),
            extends(
                *old(self),
                *final(self),
                braced_piece(old(self).environment, old(self).options, sb(expression@), sb(original@), depth as nat).records,
                braced_piece(old(self).environment, old(self).options, sb(expression@), sb(original@), depth as nat).issues,
            ),
        decreases sb(expression@).len(), 3int,
    {
        proof {
            lemma_parse_braced(sb(expression@));
        }
        match parse_braced_expression(expression) {
            None => {
                self.report(IssueKind::InvalidExpression, "");
                proof {
                    assert(seq![] + seq![InterpolationIssue::InvalidExpression] =~= seq![InterpolationIssue::InvalidExpression]);
                }
                Fragment { value: owned(original), sensitive: false }
            },
            Some((name, operator, operand)) => {
                proof {
                    assert(decode_utf8(sb(name@)) == name@);
                }
                self.evaluate(name, operator, operand, original, depth)
            },
        }
    }

    /// Reports an unset direct variable and returns what the policy substitutes.
    fn missing_direct(&mut self, name: &str, original: &str) -> (r: (Fragment, SubstitutionOutcome))
        ensures
            extends(
                *old(self),
                *final(self),
                seq![],
                seq![InterpolationIssue::UnsetVariable { name: name@, severity: missing_severity(old(self).options.spec_missing_variable()) }],
            ),
            r.1 == SubstitutionOutcome::Missing,
            !r.0.sensitive,
            sb(r.0.value@) == if old(self).options.spec_missing_variable() == MissingVariablePolicy::EmptyWithWarning {
                Seq::<u8>::empty()
            } else {
                sb(original@)
            },
    {
        let (severity, value) = match self.options.missing_variable {
            MissingVariablePolicy::EmptyWithWarning => (Severity::Warning, String::new()),
            MissingVariablePolicy::PreserveWithWarning => (Severity::Warning, owned(original)),
            MissingVariablePolicy::Error => (Severity::Error, owned(original)),
        };
        self.report(IssueKind::UnsetVariable(severity), name);
        (Fragment { value, sensitive: false }, SubstitutionOutcome::Missing)
    }

    /// Evaluates one expression with a name, an operator and an operand.
    fn evaluate(
        &mut self,
        name: &str,
        operator: InterpolationOperator,
        operand: &str,
        original: &str,
        depth: usize,
    ) -> (f: Fragment)
        requires
            depth + 1 + sb(operand@).len() <= usize::MAX,
        ensures
            holds(
                f,
                evaluation(
                    old(self).environment.lookup(name@),
                    old(self).options.spec_missing_variable(),
                    name@,
                    operator,
                    interp(old(self).environment, old(self).options, sb(operand@), (depth + 1) as nat),
                    sb(original@),
                ),
            ),
            extends(
                *old(self),
                *final(self),
                evaluation(
                    old(self).environment.lookup(name@),
                    old(self).options.spec_missing_variable(),
                    name@,
                    operator,
                    interp(old(self).environment, old(self).options, sb(operand@), (depth + 1) as nat),
                    sb(original@),
                ).records,
                evaluation(
                    old(self).environment.lookup(name@),
                    old(self).options.spec_missing_variable(),
                    name@,
                    operator,
                    interp(old(self).environment, old(self).options, sb(operand@), (depth + 1) as nat),
                    sb(original@),
                ).issues,
            ),
        decreases sb(operand@).len(), 2int,
    {
        let ghost before = *self;
        let ghost lookup = self.environment.lookup(name@);
        let ghost inner = interp(self.environment, self.options, sb(operand@), (depth + 1) as nat);
        let environment = self.environment.get(name);
        let is_set = environment.is_some();
        let is_non_empty = match &environment {
            Some(v) => !crate::text::is_empty(v.value.as_str()),
            None => false,
        };
        let ghost mut pr: Seq<SubstitutionRecord> = seq![];
        let ghost mut pi: Seq<InterpolationIssue> = seq![];
        let uses_operand = match operator {
            InterpolationOperator::Direct => false,
            InterpolationOperator::DefaultIfUnsetOrEmpty => !is_non_empty,
            InterpolationOperator::DefaultIfUnset => !is_set,
            InterpolationOperator::RequiredIfUnsetOrEmpty => false,
            InterpolationOperator::RequiredIfUnset => false,
            InterpolationOperator::AlternativeIfSetAndNonEmpty => is_non_empty,
            InterpolationOperator::AlternativeIfSet => is_set,
        };
        let requires_missing = match operator {
            InterpolationOperator::RequiredIfUnsetOrEmpty => !is_non_empty,
            InterpolationOperator::RequiredIfUnset => !is_set,
            _ => false,
        };
        let alternative_empty = match operator {
            InterpolationOperator::AlternativeIfSetAndNonEmpty => !is_non_empty,
            InterpolationOperator::AlternativeIfSet => !is_set,
            _ => false,
        };
        let fragment: Fragment;
        let outcome: SubstitutionOutcome;
        if uses_operand {
            fragment = self.interpolate_text(operand, depth + 1);
            outcome = match operator {
                InterpolationOperator::DefaultIfUnsetOrEmpty | InterpolationOperator::DefaultIfUnset => {
                    SubstitutionOutcome::Default
                },
                _ => SubstitutionOutcome::Alternative,
            };
            proof {
                pr = inner.records;
                pi = inner.issues;
            }
        } else if requires_missing {
            self.report(IssueKind::RequiredVariable, name);
            fragment = Fragment { value: owned(original), sensitive: false };
            outcome = SubstitutionOutcome::RequiredMissing;
            proof {
                pi = seq![InterpolationIssue::RequiredVariable { name: name@ }];
            }
        } else if alternative_empty {
            fragment = Fragment { value: String::new(), sensitive: false };
            outcome = SubstitutionOutcome::Empty;
            proof {
                lemma_extends_refl(before);
                assert(sb(Seq::<char>::empty()) =~= Seq::<u8>::empty());
            }
        } else if !is_set && operator == InterpolationOperator::Direct {
            let (missing, missing_outcome) = self.missing_direct(name, original);
            fragment = missing;
            outcome = missing_outcome;
            proof {
                pi = seq![InterpolationIssue::UnsetVariable {
                    name: name@,
                    severity: missing_severity(before.options.spec_missing_variable()),
                }];
            }
        } else {
            let value = match environment {
                Some(v) => v,
                None => EnvironmentValue::plain(String::new()),
            };
            fragment = Fragment { value: value.value, sensitive: value.sensitive };
            outcome = SubstitutionOutcome::Environment;
            proof {
                lemma_extends_refl(before);
            }
        }
        let ghost mid = *self;
        self.record(name, operator, outcome, fragment.sensitive);
        proof {
            let rec = record_of(name@, operator, outcome, fragment.sensitive);
            lemma_extends_trans(before, mid, *self, pr, pi, seq![rec], seq![]);
            let o = evaluation(
                lookup,
                before.options.spec_missing_variable(),
                name@,
                operator,
                inner,
                sb(original@),
            );
            assert(o.records =~= pr + seq![rec]);
            assert(o.issues =~= pi + seq![]);
        }
        fragment
    }
}

/// `r` is the result of interpolating `text`, authored at `span` and sensitive or not.
pub open spec fn interpolates_text<E: EnvironmentProvider>(
    r: InterpolationResult,
    text: Seq<char>,
    span: SourceSpan,
    sensitive: bool,
    env: &E,
    options: InterpolationOptions,
) -> bool {
    let o = interp(env, options, sb(text), 0);
    &&& r.spec_original() == text
    &&& sb(r.spec_resolved()) == o.value
    &&& r.spec_span() == span
    &&& r.spec_sensitive() == (sensitive || o.sensitive)
    &&& records(r.spec_substitutions()) == o.records
    &&& all_at(r.spec_substitutions(), span)
    &&& reports_all(r.spec_diagnostics(), o.issues, span)
}

/// `r` is the result of interpolating `input`.
pub open spec fn interpolates<E: EnvironmentProvider>(
    r: InterpolationResult,
    input: InterpolationInput,
    env: &E,
    options: InterpolationOptions,
) -> bool {
    interpolates_text(r, input.spec_value(), input.spec_span(), input.spec_sensitive(), env, options)
}

/// Interpolates one scalar using Compose's documented direct, default, required, and alternative
/// operators, with the default options.
pub fn interpolate<E: EnvironmentProvider>(input: InterpolationInput<'_>, environment: &E) -> (r: InterpolationResult)
    ensures
        interpolates(r, input, environment, InterpolationOptions::default_spec()),
{
    interpolate_with_options(input, environment, InterpolationOptions::default())
}

/// Interpolates one scalar with explicit missing-variable and nesting policies.
pub fn interpolate_with_options<E: EnvironmentProvider>(
    input: InterpolationInput<'_>,
    environment: &E,
    options: InterpolationOptions,
) -> (r: InterpolationResult)
    ensures
        interpolates(r, input, environment, options),
        r.spec_sensitive() <==> input.spec_sensitive() || exists|i: int|
            0 <= i < r.spec_substitutions().len() && #[trigger] r.spec_substitutions()[i].record().sensitive,
{
    let mut context = Context {
        environment,
        options,
        span: input.span,
        diagnostics: Vec::new(),
        substitutions: Vec::new(),
    };
    let ghost start = context;
    let n = crate::text::len(input.value);
    let fragment = context.interpolate_text(input.value, 0);
    proof {
        let o = interp(environment, options, sb(input.value@), 0);
        assert(context.substitutions@.subrange(0, 0) =~= Seq::<Substitution>::empty());
        assert(records(context.substitutions@) =~= o.records) by {
            assert forall|i: int| 0 <= i < o.records.len() implies records(context.substitutions@)[i] == o.records[i] by {
                assert(context.substitutions@[0 + i].record() == o.records[i]);
            }
        }
        assert(all_at(context.substitutions@, input.span)) by {
            assert forall|i: int| 0 <= i < context.substitutions@.len() implies #[trigger] context.substitutions@[i].spec_span() == input.span by {
                assert(context.substitutions@[0 + i].spec_span() == context.span);
            }
        }
        lemma_interp_sensitivity(environment, options, sb(input.value@), 0);
        if any_sensitive(o.records) {
            let i = choose|i: int| 0 <= i < o.records.len() && #[trigger] o.records[i].sensitive;
            assert(records(context.substitutions@)[i] == context.substitutions@[i].record());
        }
        if exists|i: int|
            0 <= i < context.substitutions@.len() && #[trigger] context.substitutions@[i].record().sensitive {
            let i = choose|i: int|
                0 <= i < context.substitutions@.len() && #[trigger] context.substitutions@[i].record().sensitive;
            assert(records(context.substitutions@)[i] == context.substitutions@[i].record());
            assert(o.records[i].sensitive);
        }
        assert(reports_all(context.diagnostics@, o.issues, input.span)) by {
            assert forall|i: int| 0 <= i < context.diagnostics@.len() implies reports(#[trigger] context.diagnostics@[i], o.issues[i], input.span) by {
                assert(reports(context.diagnostics@[0 + i], o.issues[i], context.span));
            }
        }
    }
    InterpolationResult {
        original: owned(input.value),
        resolved: fragment.value,
        span: input.span,
        sensitive: input.sensitive || fragment.sensitive,
        substitutions: context.substitutions,
        diagnostics: context.diagnostics,
    }
}

/// The diagnostics of a list of results, one result after another.
pub open spec fn all_diagnostics(values: Seq<InterpolationResult>) -> Seq<Diagnostic>
    decreases values.len(),
{
    if values.len() == 0 {
        seq![]
    } else {
        all_diagnostics(values.drop_last()) + values.last().spec_diagnostics()
    }
}

/// Two lists of diagnostics agree one for one.
pub open spec fn same_diagnostics(a: Seq<Diagnostic>, b: Seq<Diagnostic>) -> bool {
    a.len() == b.len() && forall|i: int| 0 <= i < a.len() ==> same_diagnostic(#[trigger] a[i], b[i])
}

/// The aggregated diagnostics hold an error exactly when some result's do.
proof fn lemma_all_diagnostics_error(values: Seq<InterpolationResult>)
    ensures
        has_error(all_diagnostics(values)) <==> exists|i: int|
            0 <= i < values.len() && has_error(#[trigger] values[i].spec_diagnostics()),
    decreases values.len(),
{
    if values.len() > 0 {
        let p = values.drop_last();
        lemma_all_diagnostics_error(p);
        let a = all_diagnostics(p);
        let l = values.last().spec_diagnostics();
        if has_error(a + l) {
            let k = choose|k: int| 0 <= k < (a + l).len() && (a + l)[k].spec_severity() == Severity::Error;
            if k < a.len() {
                assert(a[k] == (a + l)[k]);
                let i = choose|i: int| 0 <= i < p.len() && has_error(#[trigger] p[i].spec_diagnostics());
                assert(values[i] == p[i]);
            } else {
                assert(l[k - a.len()] == (a + l)[k]);
                assert(has_error(values[values.len() - 1].spec_diagnostics()));
            }
        }
        if exists|i: int| 0 <= i < values.len() && has_error(#[trigger] values[i].spec_diagnostics()) {
            let i = choose|i: int| 0 <= i < values.len() && has_error(#[trigger] values[i].spec_diagnostics());
            if i < p.len() {
                assert(p[i] == values[i]);
                let k = choose|k: int| 0 <= k < a.len() && a[k].spec_severity() == Severity::Error;
                assert((a + l)[k] == a[k]);
            } else {
                let k = choose|k: int| 0 <= k < l.len() && l[k].spec_severity() == Severity::Error;
                assert((a + l)[a.len() + k] == l[k]);
            }
        }
    }
}

/// The supplied scalars whose text holds a `$`, in their order: the ones interpolation can
/// change.
pub open spec fn dollar_scalars(s: Seq<Located<String>>) -> Seq<Located<String>>
    decreases s.len(),
{
    if s.len() == 0 {
        Seq::empty()
    } else if s.last().spec_value()@.contains('$') {
        dollar_scalars(s.drop_last()).push(s.last())
    } else {
        dollar_scalars(s.drop_last())
    }
}

/// Every scalar kept holds a `$`.
proof fn lemma_dollar_scalars(s: Seq<Located<String>>)
    ensures
        forall|i: int| 0 <= i < dollar_scalars(s).len() ==> (#[trigger] dollar_scalars(s)[i]).spec_value()@.contains('$'),
    decreases s.len(),
{
    if s.len() > 0 {
        let p = dollar_scalars(s.drop_last());
        lemma_dollar_scalars(s.drop_last());
        if s.last().spec_value()@.contains('$') {
            assert forall|i: int| 0 <= i < p.push(s.last()).len() implies (#[trigger] p.push(s.last())[i]).spec_value()@.contains('$') by {
                if i < p.len() {
                    assert(p.push(s.last())[i] == p[i]);
                }
            }
        }
    }
}

/// Interpolates the value scalars of one document that hold a `$`, given in source order,
/// without modifying them.
pub fn interpolate_document<E: EnvironmentProvider>(
    source_id: SourceId,
    scalars: &[Located<String>],
    environment: &E,
) -> (r: DocumentInterpolation)
    ensures
        r.spec_source_id() == source_id,
        r.spec_values().len() == dollar_scalars(scalars@).len(),
        forall|i: int|
            0 <= i < r.spec_values().len() ==> interpolates_text(
                #[trigger] r.spec_values()[i],
                dollar_scalars(scalars@)[i].spec_value()@,
                dollar_scalars(scalars@)[i].spec_span(),
                false,
                environment,
                InterpolationOptions::default_spec(),
            ),
        forall|i: int| 0 <= i < r.spec_values().len() ==> (#[trigger] r.spec_values()[i]).spec_original().contains('$'),
        same_diagnostics(r.spec_diagnostics(), all_diagnostics(r.spec_values())),
        r.spec_diagnostics().len() == all_diagnostics(r.spec_values()).len(),
        !has_error(r.spec_diagnostics()) <==> forall|i: int|
            0 <= i < r.spec_values().len() ==> !has_error(#[trigger] r.spec_values()[i].spec_diagnostics()),
{
    interpolate_document_with_options(source_id, scalars, environment, InterpolationOptions::default())
}

/// Interpolates the value scalars of one document that hold a `$`, with explicit options.
pub fn interpolate_document_with_options<E: EnvironmentProvider>(
    source_id: SourceId,
    scalars: &[Located<String>],
    environment: &E,
    options: InterpolationOptions,
) -> (r: DocumentInterpolation)
    ensures
        r.spec_source_id() == source_id,
        r.spec_values().len() == dollar_scalars(scalars@).len(),
        forall|i: int|
            0 <= i < r.spec_values().len() ==> interpolates_text(
                #[trigger] r.spec_values()[i],
                dollar_scalars(scalars@)[i].spec_value()@,
                dollar_scalars(scalars@)[i].spec_span(),
                false,
                environment,
                options,
            ),
        forall|i: int| 0 <= i < r.spec_values().len() ==> (#[trigger] r.spec_values()[i]).spec_original().contains('$'),
        same_diagnostics(r.spec_diagnostics(), all_diagnostics(r.spec_values())),
        r.spec_diagnostics().len() == all_diagnostics(r.spec_values()).len(),
        !has_error(r.spec_diagnostics()) <==> forall|i: int|
            0 <= i < r.spec_values().len() ==> !has_error(#[trigger] r.spec_values()[i].spec_diagnostics()),
{
    let mut values: Vec<InterpolationResult> = Vec::new();
    let mut diagnostics: Vec<Diagnostic> = Vec::new();
    let mut i: usize = 0;
    while i < scalars.len()
        invariant
            0 <= i <= scalars@.len(),
            values@.len() == dollar_scalars(scalars@.subrange(0, i as int)).len(),
            forall|j: int|
                0 <= j < values@.len() ==> interpolates_text(
                    #[trigger] values@[j],
                    dollar_scalars(scalars@.subrange(0, i as int))[j].spec_value()@,
                    dollar_scalars(scalars@.subrange(0, i as int))[j].spec_span(),
                    false,
                    environment,
                    options,
                ),
            same_diagnostics(diagnostics@, all_diagnostics(values@)),
        decreases scalars@.len() - i,
    {
        let scalar = &scalars[i];
        proof {
            assert(scalars@.subrange(0, i + 1).drop_last() =~= scalars@.subrange(0, i as int));
            assert(scalars@.subrange(0, i + 1).last() == scalars@[i as int]);
        }
        if !contains_dollar(scalar.value().as_str()) {
            i += 1;
            continue;
        }
        let input = InterpolationInput::new(scalar.value().as_str(), scalar.span());
        let value = interpolate_with_options(input, environment, options);
        let ghost before = diagnostics@;
        let mut k: usize = 0;
        while k < value.diagnostics.len()
            invariant
                0 <= k <= value.diagnostics@.len(),
                diagnostics@.len() == before.len() + k,
                diagnostics@.subrange(0, before.len() as int) == before,
                forall|m: int|
                    0 <= m < k ==> same_diagnostic(#[trigger] diagnostics@[before.len() + m], value.diagnostics@[m]),
            decreases value.diagnostics@.len() - k,
        {
            let ghost prior = diagnostics@;
            diagnostics.push(value.diagnostics[k].duplicate());
            proof {
                assert(diagnostics@.subrange(0, before.len() as int) =~= prior.subrange(0, before.len() as int));
                assert forall|m: int| 0 <= m < k + 1 implies same_diagnostic(
                    #[trigger] diagnostics@[before.len() + m],
                    value.diagnostics@[m],
                ) by {
                    if m < k {
                        assert(diagnostics@[before.len() + m] == prior[before.len() + m]);
                    }
                }
            }
            k += 1;
        }
        let ghost old_values = values@;
        values.push(value);
        proof {
            assert(values@.drop_last() =~= old_values);
            let flat = all_diagnostics(values@);
            assert(flat == all_diagnostics(old_values) + value.spec_diagnostics());
            assert forall|m: int| 0 <= m < diagnostics@.len() implies same_diagnostic(
                #[trigger] diagnostics@[m],
                flat[m],
            ) by {
                if m < before.len() {
                    assert(diagnostics@[m] == diagnostics@.subrange(0, before.len() as int)[m]);
                } else {
                    assert(diagnostics@[before.len() + (m - before.len())] == diagnostics@[m]);
                }
            }
            let ds = dollar_scalars(scalars@.subrange(0, i + 1));
            assert(ds == dollar_scalars(scalars@.subrange(0, i as int)).push(scalars@[i as int]));
            assert forall|j: int| 0 <= j < values@.len() implies interpolates_text(
                #[trigger] values@[j],
                ds[j].spec_value()@,
                ds[j].spec_span(),
                false,
                environment,
                options,
            ) by {
                if j < old_values.len() {
                    assert(values@[j] == old_values[j]);
                }
            }
        }
        i += 1;
    }
    proof {
        assert(scalars@.subrange(0, scalars@.len() as int) =~= scalars@);
        lemma_dollar_scalars(scalars@);
        assert forall|j: int| 0 <= j < values@.len() implies (#[trigger] values@[j]).spec_original().contains('$') by {
            assert(dollar_scalars(scalars@)[j].spec_value()@.contains('$'));
        }
        lemma_all_diagnostics_error(values@);
        let flat = all_diagnostics(values@);
        assert(has_error(diagnostics@) <==> has_error(flat)) by {
            if has_error(diagnostics@) {
                let k = choose|k: int| 0 <= k < diagnostics@.len() && diagnostics@[k].spec_severity() == Severity::Error;
                assert(same_diagnostic(diagnostics@[k], flat[k]));
            }
            if has_error(flat) {
                let k = choose|k: int| 0 <= k < flat.len() && flat[k].spec_severity() == Severity::Error;
                assert(same_diagnostic(diagnostics@[k], flat[k]));
            }
        }
    }
    DocumentInterpolation { source_id, values, diagnostics }
}

/// Some recorded expression inserted sensitive content.
pub open spec fn any_sensitive(records: Seq<SubstitutionRecord>) -> bool {
    exists|i: int| 0 <= i < records.len() && #[trigger] records[i].sensitive
}

proof fn lemma_any_sensitive_concat(a: Seq<SubstitutionRecord>, b: Seq<SubstitutionRecord>)
    ensures
        any_sensitive(a + b) <==> any_sensitive(a) || any_sensitive(b),
{
    if any_sensitive(a + b) {
        let i = choose|i: int| 0 <= i < (a + b).len() && #[trigger] (a + b)[i].sensitive;
        if i < a.len() {
            assert(a[i] == (a + b)[i]);
        } else {
            assert(b[i - a.len()] == (a + b)[i]);
        }
    }
    if any_sensitive(a) {
        let i = choose|i: int| 0 <= i < a.len() && #[trigger] a[i].sensitive;
        assert((a + b)[i] == a[i]);
    }
    if any_sensitive(b) {
        let i = choose|i: int| 0 <= i < b.len() && #[trigger] b[i].sensitive;
        assert((a + b)[a.len() + i] == b[i]);
    }
}

/// An output is sensitive exactly when one of its records is.
pub open spec fn sensitivity_recorded(o: Interpolated) -> bool {
    o.sensitive <==> any_sensitive(o.records)
}

proof fn lemma_then_recorded(a: Interpolated, b: Interpolated)
    requires
        sensitivity_recorded(a),
        sensitivity_recorded(b),
    ensures
        sensitivity_recorded(then(a, b)),
{
    lemma_any_sensitive_concat(a.records, b.records);
}

proof fn lemma_evaluation_recorded(
    lookup: Option<(Seq<char>, bool)>,
    policy: MissingVariablePolicy,
    name: Seq<char>,
    operator: InterpolationOperator,
    operand: Interpolated,
    original: Seq<u8>,
)
    requires
        sensitivity_recorded(operand),
    ensures
        sensitivity_recorded(evaluation(lookup, policy, name, operator, operand, original)),
{
    let o = evaluation(lookup, policy, name, operator, operand, original);
    let last = o.records.len() - 1;
    assert(o.records[last].sensitive == o.sensitive);
    assert(o.records =~= o.records.subrange(0, last) + seq![o.records[last]]);
    lemma_any_sensitive_concat(o.records.subrange(0, last), seq![o.records[last]]);
    assert(any_sensitive(seq![o.records[last]]) == o.records[last].sensitive) by {
        if o.records[last].sensitive {
            assert(seq![o.records[last]][0].sensitive);
        }
    }
    if o.records.len() > 1 {
        assert(o.records.subrange(0, last) == operand.records);
    } else {
        assert(!any_sensitive(o.records.subrange(0, last)));
    }
}

/// Interpolated text is sensitive exactly when some expression in it inserted sensitive
/// content.
pub proof fn lemma_interp_sensitivity<E: EnvironmentProvider>(
    env: &E,
    options: InterpolationOptions,
    t: Seq<u8>,
    depth: nat,
)
    ensures
        sensitivity_recorded(interp(env, options, t, depth)),
    decreases t.len(), t.len() + 1int,
{
    if depth <= options.spec_max_nesting() {
        lemma_scan_sensitivity(env, options, t, 0, depth);
    }
}

/// What a braced expression yields is sensitive exactly when one of its records is.
pub proof fn lemma_braced_sensitivity<E: EnvironmentProvider>(
    env: &E,
    options: InterpolationOptions,
    e: Seq<u8>,
    original: Seq<u8>,
    depth: nat,
)
    ensures
        sensitivity_recorded(braced_piece(env, options, e, original, depth)),
    decreases e.len(), 0int,
{
    lemma_parse_braced(e);
    match parse_braced(e) {
        None => {},
        Some((n, op, k)) => {
            lemma_interp_sensitivity(env, options, e.subrange(k, e.len() as int), depth + 1);
            lemma_evaluation_recorded(
                env.lookup(decode_utf8(e.subrange(0, n))),
                options.spec_missing_variable(),
                decode_utf8(e.subrange(0, n)),
                op,
                interp(env, options, e.subrange(k, e.len() as int), depth + 1),
                original,
            );
        },
    }
}

/// The rest of a scan is sensitive exactly when one of its records is.
pub proof fn lemma_scan_sensitivity<E: EnvironmentProvider>(
    env: &E,
    options: InterpolationOptions,
    t: Seq<u8>,
    c: int,
    depth: nat,
)
    ensures
        sensitivity_recorded(scan(env, options, t, c, depth)),
    decreases t.len(), t.len() - c,
{
    if 0 <= c <= t.len() {
        lemma_find_from(t, 36, c);
        let d = find_from(t, 36, c);
        if d >= 0 {
            let pre = literal(t.subrange(c, d));
            let a = d + 1;
            if a >= t.len() {
                lemma_then_recorded(pre, literal(dollar()));
            } else if t[a] == 36 {
                lemma_scan_sensitivity(env, options, t, a + 1, depth);
                lemma_then_recorded(literal(dollar()), scan(env, options, t, a + 1, depth));
                lemma_then_recorded(pre, then(literal(dollar()), scan(env, options, t, a + 1, depth)));
            } else if t[a] == 123 {
                lemma_closing_brace(t, a + 1, 1);
                let close = closing_brace(t, a + 1, 1);
                if close < 0 {
                    lemma_then_recorded(pre, kept(t.subrange(d, t.len() as int), InterpolationIssue::InvalidExpression));
                } else {
                    let piece = braced_piece(env, options, t.subrange(a + 1, close), t.subrange(d, close + 1), depth);
                    lemma_braced_sensitivity(env, options, t.subrange(a + 1, close), t.subrange(d, close + 1), depth);
                    lemma_scan_sensitivity(env, options, t, close + 1, depth);
                    lemma_then_recorded(piece, scan(env, options, t, close + 1, depth));
                    lemma_then_recorded(pre, then(piece, scan(env, options, t, close + 1, depth)));
                }
            } else if is_name_start(t[a]) {
                lemma_name_end(t, a + 1);
                let end = name_end(t, a + 1);
                let name = decode_utf8(t.subrange(a, end));
                lemma_interp_sensitivity(env, options, seq![], depth + 1);
                lemma_evaluation_recorded(
                    env.lookup(name),
                    options.spec_missing_variable(),
                    name,
                    InterpolationOperator::Direct,
                    interp(env, options, seq![], depth + 1),
                    t.subrange(d, end),
                );
                let piece = evaluation(
                    env.lookup(name),
                    options.spec_missing_variable(),
                    name,
                    InterpolationOperator::Direct,
                    interp(env, options, seq![], depth + 1),
                    t.subrange(d, end),
                );
                lemma_scan_sensitivity(env, options, t, end, depth);
                lemma_then_recorded(piece, scan(env, options, t, end, depth));
                lemma_then_recorded(pre, then(piece, scan(env, options, t, end, depth)));
            } else {
                lemma_scan_sensitivity(env, options, t, a, depth);
                lemma_then_recorded(literal(dollar()), scan(env, options, t, a, depth));
                lemma_then_recorded(pre, then(literal(dollar()), scan(env, options, t, a, depth)));
            }
        }
    }
}

/// Text without a `$` byte is copied unchanged, with no substitution and no diagnostic.
pub proof fn lemma_text_without_dollar_unchanged<E: EnvironmentProvider>(
    env: &E,
    options: InterpolationOptions,
    t: Seq<u8>,
    depth: nat,
)
    requires
        !t.contains(36u8),
        depth <= options.spec_max_nesting(),
    ensures
        interp(env, options, t, depth) == literal(t),
{
    lemma_find_from(t, 36, 0);
    if find_from(t, 36, 0) != -1 {
        assert(t[find_from(t, 36, 0)] == 36);
    }
    assert(t.subrange(0, t.len() as int) =~= t);
}

/// A direct reference `$NAME` to an unset variable follows the missing-variable policy:
/// it resolves to nothing under `EmptyWithWarning` and to itself otherwise, records one
/// `Missing` substitution and reports one unset-variable diagnostic, an error only under
/// the `Error` policy.
pub proof fn lemma_unset_direct_reference<E: EnvironmentProvider>(
    env: &E,
    options: InterpolationOptions,
    name: Seq<u8>,
    depth: nat,
)
    requires
        name.len() > 0,
        is_name_start(name[0]),
        forall|i: int| 0 <= i < name.len() ==> is_name_continue(#[trigger] name[i]),
        env.lookup(decode_utf8(name)) is None,
        depth <= options.spec_max_nesting(),
    ensures
        interp(env, options, dollar() + name, depth) == inserted(
            if options.spec_missing_variable() == MissingVariablePolicy::EmptyWithWarning {
                Seq::<u8>::empty()
            } else {
                dollar() + name
            },
            false,
            decode_utf8(name),
            InterpolationOperator::Direct,
            SubstitutionOutcome::Missing,
            seq![
                InterpolationIssue::UnsetVariable {
                    name: decode_utf8(name),
                    severity: missing_severity(options.spec_missing_variable()),
                },
            ],
        ),
{
    let t = dollar() + name;
    assert(t[0] == 36);
    assert(t[1] == name[0]);
    lemma_find_from(t, 36, 0);
    lemma_name_end(t, 2);
    let end = name_end(t, 2);
    if end < t.len() {
        assert(t[end] == name[end - 1]);
    }
    assert(end == t.len());
    assert(t.subrange(1, end) =~= name);
    assert(t.subrange(0, end) =~= t);
    let piece = evaluation(
        env.lookup(decode_utf8(name)),
        options.spec_missing_variable(),
        decode_utf8(name),
        InterpolationOperator::Direct,
        interp(env, options, seq![], depth + 1),
        t,
    );
    assert(scan(env, options, t, end, depth) == literal(seq![])) by {
        lemma_find_from(t, 36, end);
        assert(t.subrange(end, t.len() as int) =~= Seq::<u8>::empty());
    }
    assert(t.subrange(0, 0) =~= Seq::<u8>::empty());
    lemma_then_empty(piece);
    lemma_then_empty(then(piece, literal(seq![])));
}

/// The operator an operator spelling stands for, among `:-`, `-`, `:?`, `?` and none.
pub open spec fn inserting_operator(op: Seq<u8>) -> InterpolationOperator {
    if op == seq![58u8, 45u8] {
        InterpolationOperator::DefaultIfUnsetOrEmpty
    } else if op == seq![45u8] {
        InterpolationOperator::DefaultIfUnset
    } else if op == seq![58u8, 63u8] {
        InterpolationOperator::RequiredIfUnsetOrEmpty
    } else if op == seq![63u8] {
        InterpolationOperator::RequiredIfUnset
    } else {
        InterpolationOperator::Direct
    }
}

proof fn lemma_closing_brace_at_end(t: Seq<u8>, c: int)
    requires
        2 <= c <= t.len() - 1,
        t[t.len() - 1] == 125u8,
        forall|j: int| c <= j < t.len() - 1 ==> t[j] != 36u8 && t[j] != 125u8,
    ensures
        closing_brace(t, c, 1) == t.len() - 1,
    decreases t.len() - c,
{
    if c < t.len() - 1 {
        lemma_closing_brace_at_end(t, c + 1);
    }
}

proof fn lemma_name_end_run(e: Seq<u8>, n: int, i: int)
    requires
        1 <= i <= n <= e.len(),
        forall|j: int| 0 <= j < n ==> is_name_continue(#[trigger] e[j]),
        n < e.len() ==> !is_name_continue(e[n]),
    ensures
        name_end(e, i) == n,
    decreases n - i,
{
    if i < n {
        lemma_name_end_run(e, n, i + 1);
    }
}

/// A braced expression `${NAME}`, `${NAME:-WORD}`, `${NAME-WORD}`, `${NAME:?WORD}` or
/// `${NAME?WORD}` whose variable is set to a non-empty value interpolates to that value, with
/// one `Environment` substitution and no diagnostic: its default or message is never used.
pub proof fn law_set_variable_wins<E: EnvironmentProvider>(
    env: &E,
    options: InterpolationOptions,
    name: Seq<u8>,
    op: Seq<u8>,
    word: Seq<u8>,
    value: Seq<char>,
    sensitive: bool,
)
    requires
        name.len() > 0,
        is_name_start(name[0]),
        forall|i: int| 0 <= i < name.len() ==> is_name_continue(#[trigger] name[i]),
        op == seq![58u8, 45u8] || op == seq![45u8] || op == seq![58u8, 63u8] || op == seq![63u8] || (op.len() == 0
            && word.len() == 0),
        forall|i: int| 0 <= i < word.len() ==> #[trigger] word[i] != 36u8 && word[i] != 125u8,
        env.lookup(decode_utf8(name)) == Some((value, sensitive)),
        value.len() > 0,
    ensures
        ({
            let r = interp(env, options, seq![36u8, 123u8] + name + op + word + seq![125u8], 0);
            &&& r.value == sb(value)
            &&& r.sensitive == sensitive
            &&& r.records == seq![
                SubstitutionRecord {
                    name: decode_utf8(name),
                    operator: inserting_operator(op),
                    outcome: SubstitutionOutcome::Environment,
                    sensitive,
                },
            ]
            &&& r.issues.len() == 0
        }),
{
    let t = seq![36u8, 123u8] + name + op + word + seq![125u8];
    let nl = name.len() as int;
    let ol = op.len() as int;
    let len = t.len() as int;
    assert(t[0] == 36u8);
    assert(t[1] == 123u8);
    assert(t[len - 1] == 125u8);
    lemma_find_from(t, 36, 0);
    assert(find_from(t, 36, 0) == 0);
    assert forall|j: int| 2 <= j < len - 1 implies t[j] != 36u8 && t[j] != 125u8 by {
        if j < 2 + nl {
            assert(t[j] == name[j - 2]);
            assert(is_name_continue(name[j - 2]));
        } else if j < 2 + nl + ol {
            assert(t[j] == op[j - 2 - nl]);
        } else {
            assert(t[j] == word[j - 2 - nl - ol]);
        }
    }
    lemma_closing_brace_at_end(t, 2);
    let e = t.subrange(2, len - 1);
    assert(e =~= name + op + word);
    assert forall|j: int| 0 <= j < nl implies is_name_continue(#[trigger] e[j]) by {
        assert(e[j] == name[j]);
    }
    if nl < e.len() {
        assert(e[nl] == op[0]);
    }
    lemma_name_end_run(e, nl, 1);
    assert(e.subrange(0, nl) =~= name);
    let rest = e.subrange(nl, e.len() as int);
    assert(rest =~= op + word);
    if ol > 0 {
        assert(rest[0] == op[0]);
    }
    if ol > 1 {
        assert(rest[1] == op[1]);
    }
    let operator = inserting_operator(op);
    assert(operator_of(rest) == Some((operator, ol)));
    assert(parse_braced(e) == Some((nl, operator, nl + ol)));
    let operand = interp(env, options, e.subrange(nl + ol, e.len() as int), 1);
    let piece = evaluation(env.lookup(decode_utf8(name)), options.spec_missing_variable(), decode_utf8(name), operator, operand, t.subrange(0, len));
    law_operator_table(env.lookup(decode_utf8(name)), options.spec_missing_variable(), decode_utf8(name), operator, operand, t.subrange(0, len));
    assert(braced_piece(env, options, e, t.subrange(0, len), 0) == piece);
    assert(scan(env, options, t, len, 0) == literal(seq![])) by {
        lemma_find_from(t, 36, len);
        assert(t.subrange(len, len) =~= Seq::<u8>::empty());
    }
    assert(t.subrange(0, 0) =~= Seq::<u8>::empty());
    lemma_then_empty(piece);
    lemma_then_empty(then(piece, literal(seq![])));
    assert(scan(env, options, t, 0, 0) == then(literal(seq![]), then(piece, literal(seq![]))));
}

/// What `interpolate` returns for such an expression: the variable's value, one `Environment`
/// substitution, no diagnostic, and sensitivity exactly when the input or the value is
/// sensitive.
pub proof fn law_interpolate_set_variable_wins<E: EnvironmentProvider>(
    r: InterpolationResult,
    input: InterpolationInput,
    env: &E,
    options: InterpolationOptions,
    name: Seq<u8>,
    op: Seq<u8>,
    word: Seq<u8>,
    value: Seq<char>,
    sensitive: bool,
)
    requires
        interpolates(r, input, env, options),
        sb(input.spec_value()) == seq![36u8, 123u8] + name + op + word + seq![125u8],
        name.len() > 0,
        is_name_start(name[0]),
        forall|i: int| 0 <= i < name.len() ==> is_name_continue(#[trigger] name[i]),
        op == seq![58u8, 45u8] || op == seq![45u8] || op == seq![58u8, 63u8] || op == seq![63u8] || (op.len() == 0
            && word.len() == 0),
        forall|i: int| 0 <= i < word.len() ==> #[trigger] word[i] != 36u8 && word[i] != 125u8,
        env.lookup(decode_utf8(name)) == Some((value, sensitive)),
        value.len() > 0,
    ensures
        r.spec_resolved() == value,
        r.spec_substitutions().len() == 1,
        r.spec_substitutions()[0].record().outcome == SubstitutionOutcome::Environment,
        r.spec_substitutions()[0].record().operator == inserting_operator(op),
        r.spec_diagnostics().len() == 0,
        r.spec_sensitive() == (input.spec_sensitive() || sensitive),
{
    law_set_variable_wins(env, options, name, op, word, value, sensitive);
    lemma_sb_injective(r.spec_resolved(), value);
    assert(records(r.spec_substitutions()).len() == r.spec_substitutions().len());
    assert(records(r.spec_substitutions())[0] == r.spec_substitutions()[0].record());
}

/// A scalar without a `$` byte interpolates to itself, with no substitution and no diagnostic.
pub proof fn law_plain_scalar_unchanged<E: EnvironmentProvider>(
    r: InterpolationResult,
    input: InterpolationInput,
    env: &E,
    options: InterpolationOptions,
)
    requires
        interpolates(r, input, env, options),
        !sb(input.spec_value()).contains(36u8),
    ensures
        r.spec_resolved() == r.spec_original(),
        r.spec_resolved() == input.spec_value(),
        r.spec_substitutions().len() == 0,
        r.spec_diagnostics().len() == 0,
        r.spec_sensitive() == input.spec_sensitive(),
{
    lemma_text_without_dollar_unchanged(env, options, sb(input.spec_value()), 0);
    lemma_sb_injective(r.spec_resolved(), input.spec_value());
    assert(records(r.spec_substitutions()).len() == r.spec_substitutions().len());
}

/// A text without a `$` character interpolates to itself, with no substitution and no
/// diagnostic, and keeps the input's sensitivity.
pub proof fn law_text_without_dollar_unchanged<E: EnvironmentProvider>(
    r: InterpolationResult,
    input: InterpolationInput,
    env: &E,
    options: InterpolationOptions,
)
    requires
        interpolates(r, input, env, options),
        !input.spec_value().contains('$'),
    ensures
        r.spec_resolved() == input.spec_value(),
        r.spec_substitutions().len() == 0,
        r.spec_diagnostics().len() == 0,
        r.spec_sensitive() == input.spec_sensitive(),
{
    crate::text::lemma_no_dollar_byte(input.spec_value());
    law_plain_scalar_unchanged(r, input, env, options);
}

/// A read of a variable gives back the last value written for it, and a write leaves every
/// other variable as it was.
pub proof fn law_map_environment_read_after_write(
    before: MapEnvironment,
    after: MapEnvironment,
    name: Seq<char>,
    value: (Seq<char>, bool),
)
    requires
        after@ == before@.insert(name, value),
    ensures
        after.lookup(name) == Some(value),
        forall|other: Seq<char>| other != name ==> after.lookup(other) == before.lookup(other),
{
    assert forall|other: Seq<char>| other != name implies after.lookup(other) == before.lookup(other) by {
        assert(after@.contains_key(other) == before@.contains_key(other));
    }
}

/// Writing a new variable adds one to the count; rewriting one keeps the count.
pub proof fn law_map_environment_count(before: MapEnvironment, after: MapEnvironment, name: Seq<char>, value: (Seq<char>, bool))
    requires
        before@.dom().finite(),
        after@ == before@.insert(name, value),
    ensures
        after@.dom().finite(),
        after@.len() == before@.len() + if before@.contains_key(name) {
            0int
        } else {
            1int
        },
{
    if before@.contains_key(name) {
        assert(after@.dom() =~= before@.dom());
    } else {
        assert(after@.dom() =~= before@.dom().insert(name));
    }
}

/// Sorted entries with distinct names are determined by the variables they bind.
proof fn lemma_sorted_entries_canonical(s: Seq<(String, EnvironmentValue)>, t: Seq<(String, EnvironmentValue)>)
    requires
        sorted_names(s),
        sorted_names(t),
        entries_map(s) == entries_map(t),
    ensures
        s.len() == t.len(),
        forall|i: int| 0 <= i < s.len() ==> s[i].0@ == t[i].0@ && s[i].1.view_pair() == t[i].1.view_pair(),
    decreases s.len() + t.len(),
{
    lemma_sorted_unique(s);
    lemma_sorted_unique(t);
    lemma_entries_map_len(s);
    lemma_entries_map_len(t);
    if s.len() > 0 {
        let ks = s.last().0@;
        let kt = t.last().0@;
        lemma_entries_map_lookup(s, ks);
        lemma_entries_map_lookup(t, ks);
        lemma_entries_map_lookup(s, kt);
        lemma_entries_map_lookup(t, kt);
        assert(ks == kt) by {
            if ks != kt {
                let j = choose|j: int| 0 <= j < t.len() && t[j].0@ == ks;
                let m = choose|m: int| 0 <= m < s.len() && s[m].0@ == kt;
                assert(j != t.len() - 1);
                assert(m != s.len() - 1);
                assert(bytes_lt(sb(ks), sb(kt)));
                assert(bytes_lt(sb(kt), sb(ks)));
                lemma_bytes_lt_total(sb(ks), sb(kt));
            }
        }
        let ps = s.drop_last();
        let pt = t.drop_last();
        assert(unique_names(ps));
        assert(unique_names(pt));
        lemma_entries_map_lookup(ps, ks);
        lemma_entries_map_lookup(pt, ks);
        assert(!entries_map(ps).contains_key(ks)) by {
            if entries_map(ps).contains_key(ks) {
                let j = choose|j: int| 0 <= j < ps.len() && ps[j].0@ == ks;
                assert(s[j] == ps[j]);
            }
        }
        assert(!entries_map(pt).contains_key(ks)) by {
            if entries_map(pt).contains_key(ks) {
                let j = choose|j: int| 0 <= j < pt.len() && pt[j].0@ == ks;
                assert(t[j] == pt[j]);
            }
        }
        assert(entries_map(ps) =~= entries_map(s).remove(ks));
        assert(entries_map(pt) =~= entries_map(t).remove(ks));
        assert(sorted_names(ps));
        assert(sorted_names(pt));
        lemma_sorted_entries_canonical(ps, pt);
        assert(s.last().1.view_pair() == entries_map(s)[ks]);
        assert(t.last().1.view_pair() == entries_map(t)[ks]);
        assert forall|i: int| 0 <= i < s.len() implies s[i].0@ == t[i].0@ && s[i].1.view_pair() == t[i].1.view_pair() by {
            if i < s.len() - 1 {
                assert(s[i] == ps[i]);
                assert(t[i] == pt[i]);
            }
        }
    }
}

/// Two environments that bind the same variables hold the same entries in the same order, so
/// an environment is determined by its variables, whatever order they were written in.
pub proof fn law_map_environment_canonical(a: MapEnvironment, b: MapEnvironment)
    requires
        a.well_formed(),
        b.well_formed(),
        a@ == b@,
    ensures
        a.spec_entries() == b.spec_entries(),
{
    lemma_sorted_entries_canonical(a.entries@, b.entries@);
    assert(a.spec_entries() =~= b.spec_entries());
}

/// An unset direct substitution was replaced according to the configured policy.
pub fn unset_variable() -> (r: crate::diagnostic::DiagnosticCode)
    ensures
        r.text() == "compose.interpolation.unset-variable"@,
{
    crate::diagnostic::DiagnosticCode::new("compose.interpolation.unset-variable")
}

/// A required interpolation variable was unset or empty.
pub fn required_variable() -> (r: crate::diagnostic::DiagnosticCode)
    ensures
        r.text() == "compose.interpolation.required-variable"@,
{
    crate::diagnostic::DiagnosticCode::new("compose.interpolation.required-variable")
}

/// A braced interpolation expression is malformed or unsupported.
pub fn invalid_expression() -> (r: crate::diagnostic::DiagnosticCode)
    ensures
        r.text() == "compose.interpolation.invalid-expression"@,
{
    crate::diagnostic::DiagnosticCode::new("compose.interpolation.invalid-expression")
}

/// Nested interpolation exceeded the configured safety limit.
pub fn nesting_limit() -> (r: crate::diagnostic::DiagnosticCode)
    ensures
        r.text() == "compose.interpolation.nesting-limit"@,
{
    crate::diagnostic::DiagnosticCode::new("compose.interpolation.nesting-limit")
}

} // verus!
