//! Resources of the key broker, and the guard in front of those that no workload
//! may read.

use crate::text;
use vstd::prelude::*;
use vstd::string::*;

verus! {

/// A resource that a URI names.
pub struct ResourceUri {
    /// Whether the plugin that serves it is the default one.
    pub default_plugin: bool,
    /// The address of the key broker, empty for the local one.
    pub kbs_address: String,
    /// The segments of the path.
    pub path: Vec<String>,
    pub query: Option<String>,
    /// The URI as it is written in full.
    pub whole_uri: String,
}

/// A text, and the resource that it names where it is a resource URI.
pub struct ParsedUri {
    pub text: String,
    pub resource: Option<ResourceUri>,
}

/// The texts of a resource.
#[verifier::ext_equal]
pub struct ResourceUriView {
    pub default_plugin: bool,
    pub kbs_address: Seq<char>,
    pub path: Seq<Seq<char>>,
    pub query: Option<Seq<char>>,
    pub whole_uri: Seq<char>,
}

impl View for ResourceUri {
    type V = ResourceUriView;

    open spec fn view(&self) -> ResourceUriView {
        ResourceUriView {
            default_plugin: self.default_plugin,
            kbs_address: self.kbs_address@,
            path: text::texts(self.path@),
            query: match self.query {
                Some(query) => Some(query@),
                None => None,
            },
            whole_uri: self.whole_uri@,
        }
    }
}

impl ResourceUriView {
    /// The resource is served by the default plugin of the local key broker, asked
    /// for without a query, and `text` is the way in which its URI is written.
    pub open spec fn is_canonical_local(self, text: Seq<char>) -> bool {
        &&& self.default_plugin
        &&& self.kbs_address.len() == 0
        &&& self.query is None
        &&& self.whole_uri == text
    }

    /// No segment of the path is empty.
    pub open spec fn has_full_path(self) -> bool {
        forall|i: int| 0 <= i < self.path.len() ==> (#[trigger] self.path[i]).len() > 0
    }

    /// The path ends in a slash, and no other segment but that after it is empty.
    pub open spec fn is_directory(self) -> bool {
        &&& self.path.len() >= 2
        &&& self.path.last().len() == 0
        &&& forall|i: int|
            0 <= i < self.path.len() - 1 ==> (#[trigger] self.path[i]).len() > 0
    }
}

impl ParsedUri {
    /// The resource that the text names.
    pub open spec fn resource(self) -> Option<ResourceUriView> {
        match self.resource {
            Some(r) => Some(r@),
            None => None,
        }
    }

    /// Why the text is no protected prefix, if it is none.
    pub open spec fn prefix_error(self) -> Option<Seq<char>> {
        match self.resource() {
            None => Some("protected resource prefix is not a KBS URI"@),
            Some(r) => if r.is_canonical_local(self.text@) && r.is_directory() {
                None
            } else {
                Some(
                    "protected resource prefix must be a canonical local, query-free kbs URI ending in /"@,
                )
            },
        }
    }

    /// The segments that a path below the prefix starts with.
    pub open spec fn prefix_path(self) -> Seq<Seq<char>> {
        self.resource()->0.path.drop_last()
    }
}

/// Why a list of prefixes is refused, if it is: what is wrong with the first that
/// is no protected prefix.
pub open spec fn first_prefix_error(prefixes: Seq<ParsedUri>) -> Option<Seq<char>>
    decreases prefixes.len(),
{
    if prefixes.len() == 0 {
        None
    } else if prefixes[0].prefix_error() is Some {
        prefixes[0].prefix_error()
    } else {
        first_prefix_error(prefixes.skip(1))
    }
}

/// Whether `r` is a canonical local resource below none of the prefixes.
pub open spec fn is_public(
    prefixes: Seq<Seq<Seq<char>>>,
    text: Seq<char>,
    resource: Option<ResourceUriView>,
) -> bool {
    match resource {
        Some(r) => {
            &&& r.is_canonical_local(text)
            &&& r.has_full_path()
            &&& forall|i: int|
                0 <= i < prefixes.len() ==> !(#[trigger] prefixes[i]).is_prefix_of(r.path)
        },
        None => false,
    }
}

/// Whether the resource is served by the default plugin of the local key broker,
/// without a query, under the URI `text`.
fn canonical_local(resource: &ResourceUri, text: &str) -> (r: bool)
    ensures
        r == resource@.is_canonical_local(text@),
{
    resource.default_plugin && resource.kbs_address.as_str().is_empty() && resource.query.is_none()
        && text::same_text(resource.whole_uri.as_str(), text)
}

/// Whether the first `n` segments are not empty.
fn full_segments(path: &Vec<String>, n: usize) -> (r: bool)
    requires
        n <= path@.len(),
    ensures
        r == (forall|i: int| 0 <= i < n ==> (#[trigger] text::texts(path@)[i]).len() > 0),
{
    let ghost segments = text::texts(path@);
    for i in 0..n
        invariant
            n <= path@.len(),
            segments == text::texts(path@),
            forall|j: int| 0 <= j < i ==> (#[trigger] segments[j]).len() > 0,
    {
        assert(segments[i as int] == path@[i as int]@);
        if path[i].as_str().is_empty() {
            return false;
        }
    }
    true
}

/// Whether `path` starts with the segments of `prefix`.
fn starts_with(path: &Vec<String>, prefix: &Vec<String>) -> (r: bool)
    ensures
        r == text::texts(prefix@).is_prefix_of(text::texts(path@)),
{
    let ghost p = text::texts(prefix@);
    let ghost q = text::texts(path@);
    if prefix.len() > path.len() {
        return false;
    }
    for i in 0..prefix.len()
        invariant
            p == text::texts(prefix@),
            q == text::texts(path@),
            prefix@.len() <= path@.len(),
            forall|j: int| 0 <= j < i ==> p[j] == q[j],
    {
        assert(p[i as int] == prefix@[i as int]@);
        assert(q[i as int] == path@[i as int]@);
        if !text::same_text(prefix[i].as_str(), path[i].as_str()) {
            assert(!p.is_prefix_of(q)) by {
                assert(q.take(p.len() as int)[i as int] == q[i as int]);
            }
            return false;
        }
    }
    assert(p =~= q.take(p.len() as int));
    true
}

/// The texts of lists of segments.
pub open spec fn paths(list: Seq<Vec<String>>) -> Seq<Seq<Seq<char>>> {
    list.map_values(|p: Vec<String>| text::texts(p@))
}

/// The paths below which no resource is public.
pub struct ProtectedResourcePrefixes {
    prefixes: Vec<Vec<String>>,
}

impl View for ProtectedResourcePrefixes {
    type V = Seq<Seq<Seq<char>>>;

    closed spec fn view(&self) -> Seq<Seq<Seq<char>>> {
        paths(self.prefixes@)
    }
}

impl Default for ProtectedResourcePrefixes {
    fn default() -> (r: Self)
        ensures
            r@ == Seq::<Seq<Seq<char>>>::empty(),
    {
        let prefixes: Vec<Vec<String>> = Vec::new();
        assert(paths(prefixes@) =~= Seq::<Seq<Seq<char>>>::empty());
        ProtectedResourcePrefixes { prefixes }
    }
}

/// The segments of a protected prefix, or what is wrong with it.
pub fn protected_prefix(prefix: &ParsedUri) -> (r: Result<Vec<String>, String>)
    ensures
        match prefix.prefix_error() {
            None => r matches Ok(path) && text::texts(path@) == prefix.prefix_path(),
            Some(error) => r matches Err(e) && e@ == error,
        },
{
    match &prefix.resource {
        None => Err("protected resource prefix is not a KBS URI".to_owned()),
        Some(resource) => {
            let n = resource.path.len();
            let ghost segments = text::texts(resource.path@);
            if !canonical_local(resource, prefix.text.as_str()) || n < 2 || !is_empty_segment(
                &resource.path,
                n - 1,
            ) || !full_segments(&resource.path, n - 1) {
                return Err(
                    "protected resource prefix must be a canonical local, query-free kbs URI ending in /".to_owned(),
                );
            }
            let mut path: Vec<String> = Vec::new();
            assert(text::texts(path@) =~= segments.take(0));
            let last = n - 1;
            for i in 0..last
                invariant
                    last < resource.path@.len(),
                    segments == text::texts(resource.path@),
                    text::texts(path@) == segments.take(i as int),
            {
                let ghost before = text::texts(path@);
                path.push(resource.path[i].clone());
                assert(text::texts(path@) =~= before.push(segments[i as int]));
                assert(segments.take(i + 1) =~= segments.take(i as int).push(segments[i as int]));
            }
            assert(segments.take(n - 1) =~= segments.drop_last());
            Ok(path)
        },
    }
}

/// Whether the segment at `i` is empty.
fn is_empty_segment(path: &Vec<String>, i: usize) -> (r: bool)
    requires
        i < path@.len(),
    ensures
        r == (text::texts(path@)[i as int].len() == 0),
{
    path[i].as_str().is_empty()
}

impl ProtectedResourcePrefixes {
    /// The prefixes that a configuration lists.
    pub fn from_config(prefixes: &Vec<ParsedUri>) -> (r: Result<Self, String>)
        ensures
            match first_prefix_error(prefixes@) {
                None => r matches Ok(p) && p@ == prefixes@.map_values(
                    |prefix: ParsedUri| prefix.prefix_path(),
                ),
                Some(error) => r matches Err(e) && e@ == error,
            },
    {
        let ghost all = prefixes@.map_values(|prefix: ParsedUri| prefix.prefix_path());
        let mut found: Vec<Vec<String>> = Vec::new();
        assert(paths(found@) =~= all.take(0));
        assert(prefixes@.skip(0) =~= prefixes@);
        for i in 0..prefixes.len()
            invariant
                all == prefixes@.map_values(|prefix: ParsedUri| prefix.prefix_path()),
                paths(found@) == all.take(i as int),
                first_prefix_error(prefixes@) == first_prefix_error(prefixes@.skip(i as int)),
        {
            let ghost rest = prefixes@.skip(i as int);
            assert(rest[0] == prefixes@[i as int]);
            assert(rest.skip(1) =~= prefixes@.skip(i + 1));
            match protected_prefix(&prefixes[i]) {
                Ok(path) => {
                    let ghost before = paths(found@);
                    found.push(path);
                    assert(paths(found@) =~= before.push(all[i as int]));
                    assert(all.take(i + 1) =~= all.take(i as int).push(all[i as int]));
                },
                Err(e) => {
                    return Err(e);
                },
            }
        }
        assert(all.take(all.len() as int) =~= all);
        Ok(ProtectedResourcePrefixes { prefixes: found })
    }

    /// Whether a workload may read the resource that a URI names.
    pub fn allows(&self, uri: &ParsedUri) -> (r: bool)
        ensures
            r == is_public(self@, uri.text@, uri.resource()),
    {
        let resource = match &uri.resource {
            Some(resource) => resource,
            None => {
                return false;
            },
        };
        assert(uri.resource() == Some(resource@));
        assert(resource@.path == text::texts(resource.path@));
        if !canonical_local(resource, uri.text.as_str()) || !full_segments(
            &resource.path,
            resource.path.len(),
        ) {
            return false;
        }
        for i in 0..self.prefixes.len()
            invariant
                uri.resource() == Some(resource@),
                resource@.path == text::texts(resource.path@),
                forall|j: int|
                    0 <= j < i ==> !(#[trigger] self@[j]).is_prefix_of(
                        text::texts(resource.path@),
                    ),
        {
            assert(self@[i as int] == text::texts(self.prefixes@[i as int]@));
            if starts_with(&resource.path, &self.prefixes[i]) {
                return false;
            }
        }
        true
    }
}

/// Whatever lies below a configured prefix is denied, however the rest of the path
/// reads.
pub proof fn law_below_a_prefix_is_denied(
    prefixes: Seq<ParsedUri>,
    i: int,
    text: Seq<char>,
    resource: ResourceUriView,
)
    requires
        first_prefix_error(prefixes) is None,
        0 <= i < prefixes.len(),
        prefixes[i].prefix_path().is_prefix_of(resource.path),
    ensures
        !is_public(
            prefixes.map_values(|prefix: ParsedUri| prefix.prefix_path()),
            text,
            Some(resource),
        ),
{
    let all = prefixes.map_values(|prefix: ParsedUri| prefix.prefix_path());
    assert(all[i] == prefixes[i].prefix_path());
}

/// A prefix denies whole segments only: a path whose segment differs from that of
/// the prefix, though it may start with the same characters, is not below it.
pub proof fn law_segments_are_compared_whole(
    prefix: Seq<Seq<char>>,
    path: Seq<Seq<char>>,
    i: int,
)
    requires
        0 <= i < prefix.len(),
        i < path.len(),
        prefix[i] != path[i],
    ensures
        !prefix.is_prefix_of(path),
{
    if prefix.is_prefix_of(path) {
        assert(path.take(prefix.len() as int)[i] == path[i]);
    }
}

/// Only a resource of the local key broker is ever public, under the one way in
/// which its URI is written, whatever the prefixes are.
pub proof fn law_only_canonical_local_is_public(
    prefixes: Seq<Seq<Seq<char>>>,
    text: Seq<char>,
    resource: Option<ResourceUriView>,
)
    requires
        is_public(prefixes, text, resource),
    ensures
        resource is Some,
        resource->0.is_canonical_local(text),
        resource->0.has_full_path(),
{
}

/// Further prefixes never make a resource public, wherever in the list they stand:
/// what is public under a list is public under every list whose prefixes are all
/// among its own.
pub proof fn law_more_prefixes_deny_more(
    prefixes: Seq<Seq<Seq<char>>>,
    more: Seq<Seq<Seq<char>>>,
    text: Seq<char>,
    resource: Option<ResourceUriView>,
)
    requires
        forall|i: int| 0 <= i < prefixes.len() ==> more.contains(#[trigger] prefixes[i]),
        is_public(more, text, resource),
    ensures
        is_public(prefixes, text, resource),
{
    assert forall|i: int| 0 <= i < prefixes.len() implies !(
    #[trigger] prefixes[i]).is_prefix_of(resource->0.path) by {
        let j = choose|j: int| 0 <= j < more.len() && more[j] == prefixes[i];
        assert(!more[j].is_prefix_of(resource->0.path));
    }
}

/// A protected prefix always has a segment, and none of its segments is empty.
pub proof fn law_prefix_is_never_empty(prefix: ParsedUri)
    requires
        prefix.prefix_error() is None,
    ensures
        prefix.prefix_path().len() >= 1,
        forall|i: int|
            0 <= i < prefix.prefix_path().len() ==> (#[trigger] prefix.prefix_path()[i]).len() > 0,
{
    let path = prefix.resource()->0.path;
    assert forall|i: int| 0 <= i < prefix.prefix_path().len() implies (
    #[trigger] prefix.prefix_path()[i]).len() > 0 by {
        assert(path[i].len() > 0);
    }
}

/// Two lists of segments part at a place: there they differ, or the path has ended.
pub open spec fn part_at(prefix: Seq<Seq<char>>, path: Seq<Seq<char>>, j: int) -> bool {
    0 <= j < prefix.len() && (j >= path.len() || prefix[j] != path[j])
}

/// Two lists of segments part somewhere.
pub open spec fn part(prefix: Seq<Seq<char>>, path: Seq<Seq<char>>) -> bool {
    exists|j: int| part_at(prefix, path, j)
}

proof fn lemma_part(prefix: Seq<Seq<char>>, path: Seq<Seq<char>>)
    ensures
        part(prefix, path) <==> !prefix.is_prefix_of(path),
{
    let n = prefix.len() as int;
    if prefix.is_prefix_of(path) {
        assert forall|j: int| !part_at(prefix, path, j) by {
            if part_at(prefix, path, j) {
                assert(path.take(n)[j] == path[j]);
            }
        }
    } else if n > path.len() {
        assert(part_at(prefix, path, path.len() as int));
    } else if forall|j: int| !part_at(prefix, path, j) {
        assert forall|j: int| 0 <= j < n implies prefix[j] == path.take(n)[j] by {
            assert(!part_at(prefix, path, j));
        }
        assert(prefix =~= path.take(n));
    }
}

/// A resource is public exactly where it is one of the local key broker's default
/// plugin, named without a query and in the one way in which it is written, has no
/// empty segment, and parts from every protected prefix. It does not matter how many
/// prefixes, segments or characters there are.
pub proof fn law_public_is_what_parts_from_every_prefix(
    prefixes: Seq<Seq<Seq<char>>>,
    text: Seq<char>,
    r: ResourceUriView,
)
    ensures
        is_public(prefixes, text, Some(r)) <==> {
            &&& r.default_plugin
            &&& r.kbs_address.len() == 0
            &&& r.query is None
            &&& r.whole_uri == text
            &&& forall|i: int| 0 <= i < r.path.len() ==> (#[trigger] r.path[i]).len() > 0
            &&& forall|i: int| 0 <= i < prefixes.len() ==> part(#[trigger] prefixes[i], r.path)
        },
        !is_public(prefixes, text, None),
{
    assert forall|i: int| 0 <= i < prefixes.len() implies part(#[trigger] prefixes[i], r.path)
        == !prefixes[i].is_prefix_of(r.path) by {
        lemma_part(prefixes[i], r.path);
    }
}

/// A text is a protected prefix exactly where it names a resource of the local key
/// broker's default plugin, without a query and in the one way in which it is written,
/// whose path is a list of segments that are not empty, closed by a slash; what it
/// protects is that list.
pub proof fn law_prefix_is_a_closed_path(prefix: ParsedUri, r: ResourceUriView, segments: Seq<Seq<char>>)
    requires
        prefix.resource() == Some(r),
        r.path == segments.push(Seq::<char>::empty()),
    ensures
        prefix.prefix_error() is None <==> {
            &&& r.default_plugin
            &&& r.kbs_address.len() == 0
            &&& r.query is None
            &&& r.whole_uri == prefix.text@
            &&& segments.len() > 0
            &&& forall|i: int| 0 <= i < segments.len() ==> (#[trigger] segments[i]).len() > 0
        },
        prefix.prefix_path() == segments,
{
    assert(r.path.drop_last() =~= segments);
    assert forall|i: int| 0 <= i < segments.len() implies #[trigger] segments[i] == r.path[i] by {}
    assert forall|i: int| 0 <= i < r.path.len() - 1 implies #[trigger] r.path[i] == segments[i] by {}
}

/// A text that names no resource, or whose path is not closed by a slash, is no
/// protected prefix.
pub proof fn law_open_path_is_no_prefix(prefix: ParsedUri)
    requires
        prefix.resource() is None || prefix.resource()->0.path.len() == 0
            || prefix.resource()->0.path.last().len() > 0,
    ensures
        prefix.prefix_error() is Some,
        prefix.resource() is None ==> prefix.prefix_error() == Some(
            "protected resource prefix is not a KBS URI"@,
        ),
        prefix.resource() is Some ==> prefix.prefix_error() == Some(
            "protected resource prefix must be a canonical local, query-free kbs URI ending in /"@,
        ),
{
}

/// A configuration is accepted exactly where each of its prefixes is one, and what is
/// wrong with the first that is none is what is wrong with it.
pub proof fn law_first_bad_prefix_counts(prefixes: Seq<ParsedUri>)
    ensures
        first_prefix_error(prefixes) is None <==> forall|i: int|
            0 <= i < prefixes.len() ==> (#[trigger] prefixes[i]).prefix_error() is None,
        first_prefix_error(prefixes) is Some ==> exists|i: int|
            {
                &&& 0 <= i < prefixes.len()
                &&& (#[trigger] prefixes[i]).prefix_error() == first_prefix_error(prefixes)
                &&& forall|j: int| 0 <= j < i ==> (#[trigger] prefixes[j]).prefix_error() is None
            },
    decreases prefixes.len(),
{
    if prefixes.len() > 0 {
        if prefixes[0].prefix_error() is None {
            let rest = prefixes.skip(1);
            law_first_bad_prefix_counts(rest);
            assert forall|i: int| 0 <= i < rest.len() implies #[trigger] rest[i] == prefixes[i
                + 1] by {}
            if first_prefix_error(prefixes) is Some {
                let i = choose|i: int|
                    {
                        &&& 0 <= i < rest.len()
                        &&& (#[trigger] rest[i]).prefix_error() == first_prefix_error(rest)
                        &&& forall|j: int|
                            0 <= j < i ==> (#[trigger] rest[j]).prefix_error() is None
                    };
                assert(prefixes[i + 1] == rest[i]);
                assert forall|j: int| 0 <= j < i + 1 implies (
                #[trigger] prefixes[j]).prefix_error() is None by {
                    if j > 0 {
                        assert(rest[j - 1] == prefixes[j]);
                    }
                }
            } else {
                assert forall|i: int| 0 <= i < prefixes.len() implies (
                #[trigger] prefixes[i]).prefix_error() is None by {
                    if i > 0 {
                        assert(rest[i - 1] == prefixes[i]);
                    }
                }
            }
        } else {
            assert(prefixes[0].prefix_error() is Some);
        }
    }
}

} // verus!
