//! The list-query builder: four optional string parameters, refined
//! copy-on-write and rendered as an ordered sequence of query key-value
//! pairs with deterministic (lexicographic) key order.

use vstd::prelude::*;
use crate::digits::{spec_decimal, u32_to_decimal};

verus! {

/// The abstract value of a `ListQuery`: each optional parameter as a
/// character sequence.
pub struct ListQueryView {
    pub field_selector: Option<Seq<char>>,
    pub label_selector: Option<Seq<char>>,
    pub resource_version: Option<Seq<char>>,
    pub timeout_seconds: Option<Seq<char>>,
}

/// The character sequence carried by an optional string.
pub open spec fn opt_view(o: Option<String>) -> Option<Seq<char>> {
    match o {
        Some(s) => Some(s@),
        None => None,
    }
}

/// Accumulates optional list-request parameters. Constructed empty, refined
/// through chained calls, and rendered once into query pairs. Every
/// refinement returns a new, independent value and leaves the receiver
/// untouched.
#[derive(Clone, Debug)]
pub struct ListQuery {
    pub field_selector: Option<String>,
    pub label_selector: Option<String>,
    pub resource_version: Option<String>,
    pub timeout_seconds: Option<String>,
}

impl View for ListQuery {
    type V = ListQueryView;

    open spec fn view(&self) -> ListQueryView {
        ListQueryView {
            field_selector: opt_view(self.field_selector),
            label_selector: opt_view(self.label_selector),
            resource_version: opt_view(self.resource_version),
            timeout_seconds: opt_view(self.timeout_seconds),
        }
    }
}

impl Default for ListQuery {
    /// The empty query: no parameter set, so rendering yields no pairs.
    fn default() -> (q: Self)
        ensures
            q@ == (ListQueryView {
                field_selector: None,
                label_selector: None,
                resource_version: None,
                timeout_seconds: None,
            }),
            spec_query_pairs(q@) == Seq::<(Seq<char>, Seq<char>)>::empty(),
    {
        let q = ListQuery {
            field_selector: None,
            label_selector: None,
            resource_version: None,
            timeout_seconds: None,
        };
        proof {
            assert(spec_query_pairs(q@) =~= Seq::<(Seq<char>, Seq<char>)>::empty());
        }
        q
    }
}

/// The pairs that a query renders to: one pair per parameter that is set,
/// with its wire key, in lexicographic key order.
pub open spec fn spec_query_pairs(q: ListQueryView) -> Seq<(Seq<char>, Seq<char>)> {
    (match q.field_selector {
        Some(v) => seq![("fieldSelector"@, v)],
        None => Seq::<(Seq<char>, Seq<char>)>::empty(),
    }) + (match q.label_selector {
        Some(v) => seq![("labelSelector"@, v)],
        None => Seq::<(Seq<char>, Seq<char>)>::empty(),
    }) + (match q.resource_version {
        Some(v) => seq![("resourceVersion"@, v)],
        None => Seq::<(Seq<char>, Seq<char>)>::empty(),
    }) + (match q.timeout_seconds {
        Some(v) => seq![("timeoutSeconds"@, v)],
        None => Seq::<(Seq<char>, Seq<char>)>::empty(),
    })
}

/// Strict lexicographic order on character sequences: `a` comes before `b`.
pub open spec fn lex_lt(a: Seq<char>, b: Seq<char>) -> bool
    decreases a.len(),
{
    if a.len() == 0 {
        b.len() > 0
    } else if b.len() == 0 {
        false
    } else if a[0] != b[0] {
        a[0] < b[0]
    } else {
        lex_lt(a.drop_first(), b.drop_first())
    }
}

/// The keys of the pairs a query renders to.
pub open spec fn spec_query_keys(q: ListQueryView) -> Seq<Seq<char>> {
    spec_query_pairs(q).map_values(|p: (Seq<char>, Seq<char>)| p.0)
}

/// For every combination of the four optional parameters, rendering yields
/// exactly the keys of the parameters that are set — each key at most once,
/// a key present if and only if its parameter is set — in strictly
/// increasing lexicographic order.
pub proof fn lemma_query_pairs_exact(q: ListQueryView)
    ensures
        forall|i: int, j: int|
            0 <= i < j < spec_query_keys(q).len() ==> lex_lt(
                spec_query_keys(q)[i],
                spec_query_keys(q)[j],
            ),
        spec_query_keys(q).contains("fieldSelector"@) <==> q.field_selector is Some,
        spec_query_keys(q).contains("labelSelector"@) <==> q.label_selector is Some,
        spec_query_keys(q).contains("resourceVersion"@) <==> q.resource_version is Some,
        spec_query_keys(q).contains("timeoutSeconds"@) <==> q.timeout_seconds is Some,
{
    reveal_strlit("fieldSelector");
    reveal_strlit("labelSelector");
    reveal_strlit("resourceVersion");
    reveal_strlit("timeoutSeconds");
    assert("fieldSelector"@[0] == 'f' && "labelSelector"@[0] == 'l'
        && "resourceVersion"@[0] == 'r' && "timeoutSeconds"@[0] == 't');
    assert(lex_lt("fieldSelector"@, "labelSelector"@));
    assert(lex_lt("fieldSelector"@, "resourceVersion"@));
    assert(lex_lt("fieldSelector"@, "timeoutSeconds"@));
    assert(lex_lt("labelSelector"@, "resourceVersion"@));
    assert(lex_lt("labelSelector"@, "timeoutSeconds"@));
    assert(lex_lt("resourceVersion"@, "timeoutSeconds"@));
    let ks = spec_query_keys(q);
    let a: int = if q.field_selector is Some { 1 } else { 0 };
    let b: int = if q.label_selector is Some { 1 } else { 0 };
    let c: int = if q.resource_version is Some { 1 } else { 0 };
    if q.field_selector is Some {
        assert(ks[0] == "fieldSelector"@);
        assert(ks.contains("fieldSelector"@));
    } else {
        assert forall|i: int| 0 <= i < ks.len() implies ks[i] != "fieldSelector"@ by {
            assert(ks[i] == spec_query_pairs(q)[i].0);
        }
    }
    if q.label_selector is Some {
        assert(ks[a] == "labelSelector"@);
        assert(ks.contains("labelSelector"@));
    } else {
        assert forall|i: int| 0 <= i < ks.len() implies ks[i] != "labelSelector"@ by {
            assert(ks[i] == spec_query_pairs(q)[i].0);
        }
    }
    if q.resource_version is Some {
        assert(ks[a + b] == "resourceVersion"@);
        assert(ks.contains("resourceVersion"@));
    } else {
        assert forall|i: int| 0 <= i < ks.len() implies ks[i] != "resourceVersion"@ by {
            assert(ks[i] == spec_query_pairs(q)[i].0);
        }
    }
    if q.timeout_seconds is Some {
        assert(ks[a + b + c] == "timeoutSeconds"@);
        assert(ks.contains("timeoutSeconds"@));
    } else {
        assert forall|i: int| 0 <= i < ks.len() implies ks[i] != "timeoutSeconds"@ by {
            assert(ks[i] == spec_query_pairs(q)[i].0);
        }
    }
}

/// The views of a vector of rendered string pairs.
pub open spec fn pairs_view(r: Seq<(String, String)>) -> Seq<(Seq<char>, Seq<char>)> {
    r.map_values(|p: (String, String)| (p.0@, p.1@))
}

/// A copy of an optional string with the same character content.
fn clone_opt(o: &Option<String>) -> (r: Option<String>)
    ensures
        opt_view(r) == opt_view(*o),
{
    match o {
        Some(s) => Some(s.as_str().to_owned()),
        None => None,
    }
}

impl ListQuery {
    /// Renders the set parameters as query pairs, keyed `fieldSelector`,
    /// `labelSelector`, `resourceVersion`, `timeoutSeconds`, in that
    /// (lexicographic) order; an unset parameter contributes no pair.
    pub fn as_query_pairs(&self) -> (r: Vec<(String, String)>)
        ensures
            pairs_view(r@) == spec_query_pairs(self@),
    {
        let mut r: Vec<(String, String)> = Vec::new();
        if let Some(fs) = &self.field_selector {
            r.push(("fieldSelector".to_owned(), fs.as_str().to_owned()));
        }
        if let Some(ls) = &self.label_selector {
            r.push(("labelSelector".to_owned(), ls.as_str().to_owned()));
        }
        if let Some(rv) = &self.resource_version {
            r.push(("resourceVersion".to_owned(), rv.as_str().to_owned()));
        }
        if let Some(ts) = &self.timeout_seconds {
            r.push(("timeoutSeconds".to_owned(), ts.as_str().to_owned()));
        }
        proof {
            assert(pairs_view(r@) =~= spec_query_pairs(self@));
        }
        r
    }

    /// A copy of this query with the field selector set. Selector syntax is
    /// the server's concern; the value is not URL-escaped by this layer, so
    /// it cannot safely contain characters meaningful to the selector or
    /// query-string grammar (comma, equals, ampersand).
    pub fn field_selector(&self, field_selector: &str) -> (r: Self)
        ensures
            r@ == (ListQueryView { field_selector: Some(field_selector@), ..self@ }),
    {
        ListQuery {
            field_selector: Some(field_selector.to_owned()),
            label_selector: clone_opt(&self.label_selector),
            resource_version: clone_opt(&self.resource_version),
            timeout_seconds: clone_opt(&self.timeout_seconds),
        }
    }

    /// A copy of this query with the label selector set.
    pub fn label_selector(&self, label_selector: &str) -> (r: Self)
        ensures
            r@ == (ListQueryView { label_selector: Some(label_selector@), ..self@ }),
    {
        ListQuery {
            field_selector: clone_opt(&self.field_selector),
            label_selector: Some(label_selector.to_owned()),
            resource_version: clone_opt(&self.resource_version),
            timeout_seconds: clone_opt(&self.timeout_seconds),
        }
    }

    /// A copy of this query with the resource version (an opaque consistency
    /// token) set.
    pub fn resource_version(&self, resource_version: &str) -> (r: Self)
        ensures
            r@ == (ListQueryView { resource_version: Some(resource_version@), ..self@ }),
    {
        ListQuery {
            field_selector: clone_opt(&self.field_selector),
            label_selector: clone_opt(&self.label_selector),
            resource_version: Some(resource_version.to_owned()),
            timeout_seconds: clone_opt(&self.timeout_seconds),
        }
    }

    /// A copy of this query with the timeout set, rendered in its canonical
    /// base-10 form.
    pub fn timeout_seconds(&self, timeout_seconds: u32) -> (r: Self)
        ensures
            r@ == (ListQueryView {
                timeout_seconds: Some(spec_decimal(timeout_seconds as nat)),
                ..self@
            }),
    {
        ListQuery {
            field_selector: clone_opt(&self.field_selector),
            label_selector: clone_opt(&self.label_selector),
            resource_version: clone_opt(&self.resource_version),
            timeout_seconds: Some(u32_to_decimal(timeout_seconds)),
        }
    }
}

} // verus!

