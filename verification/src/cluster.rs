//! A cluster held in memory. It answers requests to create objects the way the
//! API server does as far as the bootstrap can tell: an object that is there
//! already is refused as a conflict, and a namespaced object needs its namespace.

use vstd::prelude::*;
use vstd::string::*;
use crate::config::Krunch;
use crate::resource::{CreateReply, CreationOutcome, ResourceKind, ResourceSpec};
use crate::text::same_text;

verus! {

/// What tells two objects apart: kind, namespace and name.
pub struct ObjectKey {
    pub kind: ResourceKind,
    pub namespace: Option<Seq<char>>,
    pub name: Seq<char>,
}

/// The key of an object.
pub open spec fn key_of(r: ResourceSpec) -> ObjectKey {
    ObjectKey {
        kind: r.kind_of(),
        namespace: match r.metadata.namespace {
            Some(ns) => Some(ns@),
            None => None,
        },
        name: r.metadata.name@,
    }
}

/// Some object of `objects` has the key `key`.
pub open spec fn holds(objects: Seq<ResourceSpec>, key: ObjectKey) -> bool {
    exists|i: int| 0 <= i < objects.len() && key_of(#[trigger] objects[i]) == key
}

/// `objects` holds the namespace called `name`. The namespace `default` is
/// always there.
pub open spec fn has_namespace(objects: Seq<ResourceSpec>, name: Seq<char>) -> bool {
    name == "default"@ || holds(
        objects,
        ObjectKey { kind: ResourceKind::Namespace, namespace: None, name },
    )
}

/// No two objects share a key.
pub open spec fn distinct_keys(objects: Seq<ResourceSpec>) -> bool {
    forall|i: int, j: int|
        0 <= i < j < objects.len() ==> key_of(#[trigger] objects[i]) != key_of(
            #[trigger] objects[j],
        )
}

/// The namespace that `r` asks for, if any, is there.
pub open spec fn namespace_ready(objects: Seq<ResourceSpec>, r: ResourceSpec) -> bool {
    r.metadata.namespace matches Some(ns) ==> has_namespace(objects, ns@)
}

/// A request to create `r` succeeds.
pub open spec fn creatable(objects: Seq<ResourceSpec>, r: ResourceSpec) -> bool {
    !holds(objects, key_of(r)) && namespace_ready(objects, r)
}

/// The objects after a request to create `r`.
pub open spec fn after_create(objects: Seq<ResourceSpec>, r: ResourceSpec) -> Seq<ResourceSpec> {
    if creatable(objects, r) {
        objects.push(r)
    } else {
        objects
    }
}

/// The answer to a request to create `r`, up to the text of the reason.
pub open spec fn answers(objects: Seq<ResourceSpec>, r: ResourceSpec, reply: CreateReply) -> bool {
    if holds(objects, key_of(r)) {
        reply matches CreateReply::Api { reason, code } && reason@ == "AlreadyExists"@ && code
            == 409
    } else if !namespace_ready(objects, r) {
        reply matches CreateReply::Api { reason, code } && reason@ == "NotFound"@ && code == 404
    } else {
        reply is Created
    }
}

/// The objects of a cluster, held in memory.
pub struct Cluster {
    objects: Vec<ResourceSpec>,
}

impl Cluster {
    /// The objects of the cluster, in the order in which they were created.
    pub closed spec fn objects(&self) -> Seq<ResourceSpec> {
        self.objects@
    }

    /// No two objects of the cluster share a key.
    pub open spec fn wf(&self) -> bool {
        distinct_keys(self.objects())
    }

    /// A cluster that holds nothing but the namespace `default`.
    pub fn new() -> (c: Cluster)
        ensures
            c.wf(),
            c.objects().len() == 0,
    {
        Cluster { objects: Vec::new() }
    }

    /// The number of objects.
    pub fn len(&self) -> (n: usize)
        ensures
            n == self.objects().len(),
    {
        self.objects.len()
    }

    /// The object that was created as number `i`.
    pub fn get(&self, i: usize) -> (r: &ResourceSpec)
        requires
            i < self.objects().len(),
        ensures
            *r == self.objects()[i as int],
    {
        &self.objects[i]
    }

    /// Whether the cluster holds an object with the key of `r`.
    pub fn contains(&self, r: &ResourceSpec) -> (found: bool)
        ensures
            found == holds(self.objects(), key_of(*r)),
    {
        let mut i: usize = 0;
        while i < self.objects.len()
            invariant
                i <= self.objects.len(),
                forall|j: int| 0 <= j < i ==> key_of(#[trigger] self.objects@[j]) != key_of(*r),
            decreases self.objects.len() - i,
        {
            if same_key(&self.objects[i], r) {
                return true;
            }
            i = i + 1;
        }
        false
    }

    /// Whether the namespace called `name` is there.
    pub fn contains_namespace(&self, name: &str) -> (found: bool)
        ensures
            found == has_namespace(self.objects(), name@),
    {
        if same_text(name, "default") {
            return true;
        }
        let ghost key = ObjectKey { kind: ResourceKind::Namespace, namespace: None, name: name@ };
        let mut i: usize = 0;
        while i < self.objects.len()
            invariant
                i <= self.objects.len(),
                key == (ObjectKey { kind: ResourceKind::Namespace, namespace: None, name: name@ }),
                forall|j: int| 0 <= j < i ==> key_of(#[trigger] self.objects@[j]) != key,
            decreases self.objects.len() - i,
        {
            let o = &self.objects[i];
            if o.kind() == ResourceKind::Namespace && o.metadata.namespace.is_none() && same_text(
                o.metadata.name.as_str(),
                name,
            ) {
                return true;
            }
            i = i + 1;
        }
        false
    }

    /// Answers a request to create `r`.
    pub fn create(&mut self, r: ResourceSpec) -> (reply: CreateReply)
        requires
            old(self).wf(),
        ensures
            final(self).wf(),
            final(self).objects() == after_create(old(self).objects(), r),
            answers(old(self).objects(), r, reply),
    {
        if self.contains(&r) {
            return CreateReply::Api { reason: String::from_str("AlreadyExists"), code: 409 };
        }
        let ready = match &r.metadata.namespace {
            Some(ns) => self.contains_namespace(ns.as_str()),
            None => true,
        };
        if !ready {
            return CreateReply::Api { reason: String::from_str("NotFound"), code: 404 };
        }
        self.objects.push(r);
        CreateReply::Created
    }

    /// Makes sure that `r` is in the cluster, and says what it took.
    pub fn ensure(&mut self, r: ResourceSpec) -> (o: CreationOutcome)
        requires
            old(self).wf(),
        ensures
            final(self).wf(),
            final(self).objects() == after_create(old(self).objects(), r),
            o is Created <==> creatable(old(self).objects(), r),
            o is AlreadyExists <==> holds(old(self).objects(), key_of(r)),
            o matches CreationOutcome::Failed(reason) ==> reason@ == "NotFound"@,
            o.exists_after() <==> holds(final(self).objects(), key_of(r)),
    {
        let reply = self.create(r);
        proof {
            reveal_strlit("AlreadyExists");
            reveal_strlit("NotFound");
            assert("NotFound"@.len() != "AlreadyExists"@.len());
            lemma_object_is_there_after_create(old(self).objects(), r);
        }
        Krunch::handle_resource_creation_result(reply)
    }
}

/// Whether two objects have the same key.
pub fn same_key(a: &ResourceSpec, b: &ResourceSpec) -> (r: bool)
    ensures
        r == (key_of(*a) == key_of(*b)),
{
    let same_namespace = match (&a.metadata.namespace, &b.metadata.namespace) {
        (Some(x), Some(y)) => same_text(x.as_str(), y.as_str()),
        (None, None) => true,
        _ => false,
    };
    a.kind() == b.kind() && same_namespace && same_text(
        a.metadata.name.as_str(),
        b.metadata.name.as_str(),
    )
}

/// After a request to create `r`, the cluster holds an object with the key of
/// `r` exactly when the object was there before or could be created.
proof fn lemma_object_is_there_after_create(objects: Seq<ResourceSpec>, r: ResourceSpec)
    ensures
        holds(after_create(objects, r), key_of(r)) <==> holds(objects, key_of(r)) || creatable(
            objects,
            r,
        ),
{
    let after = after_create(objects, r);
    if creatable(objects, r) {
        assert(key_of(after[objects.len() as int]) == key_of(r));
    }
}

/// Asking twice for the same object: where the first request creates it, the
/// second finds it there, and the second never changes the cluster.
pub proof fn lemma_ensure_is_idempotent(objects: Seq<ResourceSpec>, r: ResourceSpec)
    ensures
        creatable(objects, r) ==> holds(after_create(objects, r), key_of(r)),
        !creatable(after_create(objects, r), r),
        after_create(after_create(objects, r), r) == after_create(objects, r),
{
    lemma_object_is_there_after_create(objects, r);
    let once = after_create(objects, r);
    if !creatable(objects, r) && namespace_ready(once, r) {
        assert(holds(objects, key_of(r)));
    }
    if !creatable(objects, r) && !holds(objects, key_of(r)) {
        assert(!namespace_ready(objects, r));
    }
}

} // verus!
