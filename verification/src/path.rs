//! Upgrade path validation and pod identifier extraction. A request may be
//! proxied only when its path starts with the fixed prefix `/colibri-ws/jvb-`;
//! the pod to contact is named by the text that follows that prefix, up to
//! the next slash or the end of the path.

use vstd::prelude::*;

verus! {

/// The byte `/`, the segment delimiter of a request path.
pub open spec fn slash() -> u8 {
    47u8
}

/// The bytes of the required path prefix `/colibri-ws/jvb-`.
pub open spec fn path_prefix() -> Seq<u8> {
    seq![
        47u8, 99u8, 111u8, 108u8, 105u8, 98u8, 114u8, 105u8, 45u8, 119u8, 115u8, 47u8, 106u8,
        118u8, 98u8, 45u8,
    ]
}

/// A path is accepted for proxying exactly when it starts with
/// `/colibri-ws/jvb-`.
pub open spec fn path_is_valid(p: Seq<u8>) -> bool {
    p.len() >= 16 && p.subrange(0, 16) == path_prefix()
}

/// The position of the first slash at or after `i`, or the end of the path.
pub open spec fn segment_end(p: Seq<u8>, i: int) -> int
    recommends
        0 <= i <= p.len(),
    decreases p.len() - i,
{
    if i < 0 || i >= p.len() {
        p.len() as int
    } else if p[i] == slash() {
        i
    } else {
        segment_end(p, i + 1)
    }
}

/// The pod identifier of a path: the text after the prefix
/// `/colibri-ws/jvb-`, up to the next slash or the end.
pub open spec fn pod_id_of(p: Seq<u8>) -> Seq<u8>
    recommends
        p.len() >= 16,
{
    p.subrange(16, segment_end(p, 16))
}

/// `segment_end(p, i)` is the unique `j` with no slash in `p[i..j]` that is
/// either the end of `p` or a slash position.
pub proof fn lemma_segment_end_unique(p: Seq<u8>, i: int, j: int)
    requires
        0 <= i <= j <= p.len(),
        forall|k: int| i <= k < j ==> p[k] != slash(),
        j == p.len() || p[j] == slash(),
    ensures
        segment_end(p, i) == j,
    decreases j - i,
{
    if i == j {
    } else {
        assert(p[i] != slash());
        lemma_segment_end_unique(p, i + 1, j);
    }
}

/// Bounds and characterisation of `segment_end`.
pub proof fn lemma_segment_end_bounds(p: Seq<u8>, i: int)
    requires
        0 <= i <= p.len(),
    ensures
        i <= segment_end(p, i) <= p.len(),
        forall|k: int| i <= k < segment_end(p, i) ==> p[k] != slash(),
        segment_end(p, i) < p.len() ==> p[segment_end(p, i)] == slash(),
    decreases p.len() - i,
{
    if i < p.len() && p[i] != slash() {
        lemma_segment_end_bounds(p, i + 1);
    }
}

/// On a valid path, extraction never fails: the identifier is the
/// (possibly empty) slash-free text after the prefix. It is empty exactly
/// when nothing, or directly another segment, follows the prefix; such a
/// path is still accepted — the session proceeds and its cluster lookup is
/// simply left to fail.
pub proof fn lemma_pod_id_shape(p: Seq<u8>)
    requires
        path_is_valid(p),
    ensures
        forall|k: int| 0 <= k < pod_id_of(p).len() ==> pod_id_of(p)[k] != slash(),
        pod_id_of(p).len() == 0 <==> (p.len() == 16 || p[16] == slash()),
{
    lemma_segment_end_bounds(p, 16);
    assert(forall|k: int| 0 <= k < pod_id_of(p).len() ==> pod_id_of(p)[k] == p[16 + k]);
    if p.len() > 16 && p[16] != slash() {
        lemma_segment_end_bounds(p, 17);
        assert(segment_end(p, 16) == segment_end(p, 17));
    }
}

/// For a path written `/colibri-ws/jvb-` + `id` + `/` + `rest` with no
/// slash inside `id`, the extracted pod identifier is exactly `id`: the
/// text after the prefix up to the next slash. The same holds when nothing
/// follows `id`.
pub proof fn lemma_pod_id_exact(id: Seq<u8>, rest: Seq<u8>)
    requires
        forall|k: int| 0 <= k < id.len() ==> id[k] != slash(),
    ensures
        path_is_valid(path_prefix() + id + seq![slash()] + rest),
        pod_id_of(path_prefix() + id + seq![slash()] + rest) == id,
        path_is_valid(path_prefix() + id),
        pod_id_of(path_prefix() + id) == id,
{
    let p1 = path_prefix() + id + seq![slash()] + rest;
    let p2 = path_prefix() + id;
    assert(p1.subrange(0, 16) =~= path_prefix());
    assert(p2.subrange(0, 16) =~= path_prefix());
    assert(forall|k: int| 16 <= k < 16 + id.len() ==> p1[k] != slash());
    assert(p1[16 + id.len() as int] == slash());
    lemma_segment_end_unique(p1, 16, 16 + id.len() as int);
    assert(pod_id_of(p1) =~= id);
    assert(forall|k: int| 16 <= k < p2.len() ==> p2[k] != slash());
    lemma_segment_end_unique(p2, 16, p2.len() as int);
    assert(pod_id_of(p2) =~= id);
}

/// The required prefix `/colibri-ws/jvb-` as runtime bytes.
pub fn path_prefix_bytes() -> (r: Vec<u8>)
    ensures
        r@ == path_prefix(),
{
    let mut v: Vec<u8> = Vec::new();
    v.push(47);
    v.push(99);
    v.push(111);
    v.push(108);
    v.push(105);
    v.push(98);
    v.push(114);
    v.push(105);
    v.push(45);
    v.push(119);
    v.push(115);
    v.push(47);
    v.push(106);
    v.push(118);
    v.push(98);
    v.push(45);
    proof {
        assert(v@ =~= path_prefix());
    }
    v
}

/// True exactly when the path starts with `/colibri-ws/jvb-`.
pub fn path_has_prefix(path: &Vec<u8>) -> (r: bool)
    ensures
        r == path_is_valid(path@),
{
    let pre = path_prefix_bytes();
    if path.len() < 16 {
        return false;
    }
    let mut i: usize = 0;
    while i < 16
        invariant
            0 <= i <= 16,
            path@.len() >= 16,
            pre@ == path_prefix(),
            forall|k: int| 0 <= k < i ==> path@[k] == path_prefix()[k],
        decreases 16 - i,
    {
        if path[i] != pre[i] {
            proof {
                if path_is_valid(path@) {
                    assert(path@[i as int] == path@.subrange(0, 16)[i as int]);
                }
            }
            return false;
        }
        i += 1;
    }
    proof {
        assert(path@.subrange(0, 16) =~= path_prefix());
    }
    true
}

/// The pod identifier of a valid path: the text after the required prefix,
/// up to the next slash or the end.
pub fn extract_pod_id(path: &Vec<u8>) -> (r: Vec<u8>)
    requires
        path_is_valid(path@),
    ensures
        r@ == pod_id_of(path@),
{
    let mut r: Vec<u8> = Vec::new();
    let mut j: usize = 16;
    while j < path.len() && path[j] != 47
        invariant
            16 <= j <= path@.len(),
            path@.len() >= 16,
            forall|k: int| 16 <= k < j ==> path@[k] != slash(),
            r@ == path@.subrange(16, j as int),
        decreases path@.len() - j,
    {
        let b = path[j];
        r.push(b);
        proof {
            assert(r@ =~= path@.subrange(16, j + 1));
        }
        j += 1;
    }
    proof {
        lemma_segment_end_unique(path@, 16, j as int);
    }
    r
}

} // verus!
