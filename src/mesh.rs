use std::collections::HashMap;

use vstd::prelude::*;

use crate::format::{FORMAT_R32G32B32_SFLOAT, FORMAT_R32G32_SFLOAT};

verus! {

/// Three 32-bit float components, held as their bit patterns.
#[derive(Clone, Copy, Debug, PartialEq, Eq, Hash, Structural)]
pub struct Vec3Bits {
    pub x: u32,
    pub y: u32,
    pub z: u32,
}

/// Two 32-bit float components, held as their bit patterns.
#[derive(Clone, Copy, Debug, PartialEq, Eq, Hash, Structural)]
pub struct Vec2Bits {
    pub x: u32,
    pub y: u32,
}

/// A mesh vertex: position, colour and texture coordinate. Two vertices are
/// the same exactly when every component has the same bit pattern.
#[derive(Clone, Copy, Debug, PartialEq, Eq, Hash, Structural)]
pub struct Vertex {
    pub pos: Vec3Bits,
    pub color: Vec3Bits,
    pub tex_coord: Vec2Bits,
}

/// Byte size of one vertex in a vertex buffer: eight 32-bit floats.
pub const VERTEX_STRIDE: u32 = 32;

/// How vertices are laid out in the vertex buffer bound at `binding`.
#[derive(Clone, Copy, Debug, PartialEq, Eq, Structural)]
pub struct VertexBinding {
    pub binding: u32,
    pub stride: u32,
    /// Whether the buffer advances per vertex (rather than per instance).
    pub per_vertex: bool,
}

/// Where one vertex attribute sits within a vertex.
#[derive(Clone, Copy, Debug, PartialEq, Eq, Structural)]
pub struct VertexAttribute {
    pub binding: u32,
    pub location: u32,
    pub format: i32,
    pub offset: u32,
}

impl Vertex {
    /// A vertex from its components.
    pub fn new(pos: Vec3Bits, color: Vec3Bits, tex_coord: Vec2Bits) -> (r: Vertex)
        ensures
            r == (Vertex { pos, color, tex_coord }),
    {
        Vertex { pos, color, tex_coord }
    }

    /// The single per-vertex buffer binding, at binding 0.
    pub fn binding_description() -> (r: VertexBinding)
        ensures
            r == (VertexBinding { binding: 0, stride: VERTEX_STRIDE, per_vertex: true }),
    {
        VertexBinding { binding: 0, stride: VERTEX_STRIDE, per_vertex: true }
    }

    /// The position (location 0), colour (location 1) and texture coordinate
    /// (location 2) attributes, packed in that order.
    pub fn attribute_descriptions() -> (r: [VertexAttribute; 3])
        ensures
            r@ == seq![
                VertexAttribute { binding: 0, location: 0, format: FORMAT_R32G32B32_SFLOAT, offset: 0 },
                VertexAttribute { binding: 0, location: 1, format: FORMAT_R32G32B32_SFLOAT, offset: 12 },
                VertexAttribute { binding: 0, location: 2, format: FORMAT_R32G32_SFLOAT, offset: 24 },
            ],
    {
        let pos = VertexAttribute {
            binding: 0,
            location: 0,
            format: FORMAT_R32G32B32_SFLOAT,
            offset: 0,
        };
        let color = VertexAttribute {
            binding: 0,
            location: 1,
            format: FORMAT_R32G32B32_SFLOAT,
            offset: 12,
        };
        let tex_coord = VertexAttribute {
            binding: 0,
            location: 2,
            format: FORMAT_R32G32_SFLOAT,
            offset: 24,
        };
        let r = [pos, color, tex_coord];
        assert(r@ =~= seq![pos, color, tex_coord]);
        r
    }
}

/// The distinct vertices of `s`, each at the place where it is first seen.
pub open spec fn first_seen(s: Seq<Vertex>) -> Seq<Vertex>
    decreases s.len(),
{
    if s.len() == 0 {
        Seq::empty()
    } else {
        let u = first_seen(s.drop_last());
        if u.contains(s.last()) {
            u
        } else {
            u.push(s.last())
        }
    }
}

/// Whether no vertex occurs twice in `u`.
pub open spec fn no_duplicates(u: Seq<Vertex>) -> bool {
    forall|a: int, b: int| 0 <= a < b < u.len() ==> u[a] != u[b]
}

/// The index lists that draw `input` from the vertex list `unique`.
pub open spec fn indexes(unique: Seq<Vertex>, input: Seq<Vertex>, indices: Seq<u32>) -> bool {
    &&& indices.len() == input.len()
    &&& forall|k: int|
        0 <= k < input.len() ==> #[trigger] indices[k] < unique.len() && unique[indices[k] as int]
            == input[k]
}

/// The key a vertex is filed under in the lookup table of
/// `dedup_vertices`: its eight components folded into 64 bits. Equal
/// vertices share a key; different vertices may share one too.
pub open spec fn vertex_key(v: Vertex) -> u64 {
    (((v.pos.x as u64) << 32u64) | (v.pos.y as u64)) ^ (((v.pos.z as u64) << 32u64) | (
    v.color.x as u64)) ^ (((v.color.y as u64) << 32u64) | (v.color.z as u64)) ^ (((
    v.tex_coord.x as u64) << 32u64) | (v.tex_coord.y as u64))
}

fn key_of(v: &Vertex) -> (r: u64)
    ensures
        r == vertex_key(*v),
{
    (((v.pos.x as u64) << 32u64) | (v.pos.y as u64)) ^ (((v.pos.z as u64) << 32u64) | (
    v.color.x as u64)) ^ (((v.color.y as u64) << 32u64) | (v.color.z as u64)) ^ (((
    v.tex_coord.x as u64) << 32u64) | (v.tex_coord.y as u64))
}

/// The lookup table files every vertex of `unique` under its key, and
/// holds nothing else: each bucket lists positions in `unique` of vertices
/// with the bucket's key.
pub open spec fn table_files(table: Map<u64, Vec<u32>>, unique: Seq<Vertex>) -> bool {
    &&& forall|k: u64, t: int|
        table.contains_key(k) && 0 <= t < table[k]@.len() ==> (#[trigger] table[k]@[t]) < unique.len()
            && vertex_key(unique[table[k]@[t] as int]) == k
    &&& forall|a: int|
        0 <= a < unique.len() ==> table.contains_key(vertex_key(#[trigger] unique[a])) && exists|t: int|
            0 <= t < table[vertex_key(unique[a])]@.len() && table[vertex_key(unique[a])]@[t] == a
}

/// Splits a stream of triangle corners into a list of distinct vertices and
/// an index list into it.
///
/// Equal vertices get the same index and different vertices different
/// indices; vertices are numbered 0, 1, 2, ... in the order in which they
/// are first seen, so a vertex seen for the first time gets the number of
/// distinct vertices before it, above every index given before it.
pub fn dedup_vertices(input: &Vec<Vertex>) -> (r: (Vec<Vertex>, Vec<u32>))
    requires
        input@.len() <= u32::MAX,
    ensures
        r.0@ == first_seen(input@),
        no_duplicates(r.0@),
        indexes(r.0@, input@, r.1@),
        forall|i: int, j: int|
            0 <= i < input@.len() && 0 <= j < input@.len() ==> (input@[i] == input@[j] <==> r.1@[i]
                == r.1@[j]),
        forall|i: int, j: int|
            0 <= i < j < input@.len() && (forall|m: int| 0 <= m < j ==> input@[m] != input@[j])
                ==> r.1@[i] < r.1@[j],
        forall|i: int|
            0 <= i < input@.len() && (forall|m: int| 0 <= m < i ==> input@[m] != input@[i])
                ==> r.1@[i] == first_seen(input@.take(i)).len(),
{
    broadcast use vstd::std_specs::hash::group_hash_axioms;

    let mut unique: Vec<Vertex> = Vec::new();
    let mut indices: Vec<u32> = Vec::new();
    let mut table: HashMap<u64, Vec<u32>> = HashMap::new();
    let mut k: usize = 0;
    while k < input.len()
        invariant
            k <= input@.len() <= u32::MAX,
            unique@ == first_seen(input@.take(k as int)),
            no_duplicates(unique@),
            unique@.len() <= k,
            indexes(unique@, input@.take(k as int), indices@),
            table_files(table@, unique@),
            forall|a: int|
                0 <= a < unique@.len() ==> exists|m: int|
                    0 <= m < k && input@[m] == #[trigger] unique@[a],
            forall|i: int, j: int|
                0 <= i < j < k && (forall|m: int| 0 <= m < j ==> input@[m] != input@[j]) ==> indices@[i]
                    < indices@[j],
            forall|i: int|
                0 <= i < k && (forall|m: int| 0 <= m < i ==> input@[m] != input@[i]) ==> indices@[i]
                    == first_seen(input@.take(i)).len(),
        decreases input@.len() - k,
    {
        let v = input[k];
        let key = key_of(&v);
        let mut found: Option<u32> = None;
        match table.get(&key) {
            Some(bucket) => {
                let mut t: usize = 0;
                while t < bucket.len()
                    invariant_except_break
                        found is None,
                    invariant
                        table@.contains_key(key),
                        bucket@ == table@[key]@,
                        t <= bucket@.len(),
                        table_files(table@, unique@),
                        forall|s: int| 0 <= s < t ==> unique@[#[trigger] bucket@[s] as int] != v,
                    ensures
                        found matches Some(a) ==> a < unique@.len() && unique@[a as int] == v,
                        found is None ==> forall|s: int|
                            0 <= s < bucket@.len() ==> unique@[#[trigger] bucket@[s] as int] != v,
                    decreases bucket@.len() - t,
                {
                    let a = bucket[t];
                    assert(table@[key]@[t as int] == a);
                    if unique[a as usize] == v {
                        found = Some(a);
                        break;
                    }
                    t += 1;
                }
                proof {
                    if found is None {
                        assert forall|a: int| 0 <= a < unique@.len() implies unique@[a] != v by {
                            if unique@[a] == v {
                                let t2 = choose|t2: int|
                                    0 <= t2 < table@[vertex_key(unique@[a])]@.len()
                                        && table@[vertex_key(unique@[a])]@[t2] == a;
                                assert(unique@[bucket@[t2] as int] != v);
                            }
                        }
                    }
                }
            },
            None => {
                assert forall|a: int| 0 <= a < unique@.len() implies unique@[a] != v by {
                    if unique@[a] == v {
                        assert(table@.contains_key(vertex_key(unique@[a])));
                    }
                }
            },
        }
        proof {
            if let Some(a) = found {
                assert(a < unique@.len() && unique@[a as int] == v);
            } else {
                assert(!unique@.contains(v));
            }
        }
        let ghost old_unique = unique@;
        let ghost old_indices = indices@;
        let ghost old_table = table@;
        assert(input@.take(k + 1).drop_last() =~= input@.take(k as int));
        match found {
            Some(a) => {
                assert(old_unique.contains(v));
                indices.push(a);
                proof {
                    assert forall|i: int|
                        0 <= i < k + 1 && (forall|m: int| 0 <= m < k + 1 ==> input@[m] != input@[k as int])
                            implies indices@[i] < indices@[k as int] by {
                        let m = choose|m: int| 0 <= m < k && input@[m] == #[trigger] old_unique[a as int];
                        assert(input@[m] != input@[k as int]);
                    }
                    assert forall|i: int|
                        0 <= i < k + 1 && (forall|m: int| 0 <= m < i ==> input@[m] != input@[i])
                            implies indices@[i] == first_seen(input@.take(i)).len() by {
                        if i == k {
                            let m = choose|m: int| 0 <= m < k && input@[m] == #[trigger] old_unique[a as int];
                            assert(input@[m] == input@[i]);
                        } else {
                            assert(old_indices[i] == indices@[i]);
                        }
                    }
                }
            },
            None => {
                let n = unique.len();
                unique.push(v);
                indices.push(n as u32);
                let mut bucket = match table.remove(&key) {
                    Some(b) => b,
                    None => Vec::new(),
                };
                let ghost old_bucket = if old_table.contains_key(key) {
                    old_table[key]@
                } else {
                    Seq::<u32>::empty()
                };
                assert(bucket@ == old_bucket);
                bucket.push(n as u32);
                table.insert(key, bucket);
                proof {
                    assert(table@ == old_table.insert(key, bucket));
                    assert forall|k2: u64, t: int|
                        table@.contains_key(k2) && 0 <= t < table@[k2]@.len() implies (
                        #[trigger] table@[k2]@[t]) < unique@.len() && vertex_key(
                        unique@[table@[k2]@[t] as int],
                    ) == k2 by {
                        if k2 == key {
                            if t < old_bucket.len() {
                                assert(table@[k2]@[t] == old_table[key]@[t]);
                            }
                        } else {
                            assert(table@[k2] == old_table[k2]);
                        }
                    }
                    assert forall|b: int| 0 <= b < unique@.len() implies table@.contains_key(
                        vertex_key(#[trigger] unique@[b]),
                    ) && exists|t: int|
                        0 <= t < table@[vertex_key(unique@[b])]@.len() && table@[vertex_key(
                            unique@[b],
                        )]@[t] == b by {
                        let kb = vertex_key(unique@[b]);
                        if b < n {
                            assert(unique@[b] == old_unique[b]);
                            let t = choose|t: int|
                                0 <= t < old_table[kb]@.len() && old_table[kb]@[t] == b;
                            if kb == key {
                                assert(table@[kb]@[t] == b);
                            } else {
                                assert(table@[kb] == old_table[kb]);
                            }
                        } else {
                            assert(table@[kb]@[old_bucket.len() as int] == b);
                        }
                    }
                    assert(!old_unique.contains(v));
                    assert forall|b: int| 0 <= b < unique@.len() implies exists|m: int|
                        0 <= m < k + 1 && input@[m] == #[trigger] unique@[b] by {
                        if b < n {
                            let m = choose|m: int| 0 <= m < k && input@[m] == #[trigger] old_unique[b];
                            assert(input@[m] == unique@[b]);
                        } else {
                            assert(input@[k as int] == unique@[b]);
                        }
                    }
                    assert forall|i: int|
                        0 <= i < k + 1 && (forall|m: int| 0 <= m < i ==> input@[m] != input@[i])
                            implies indices@[i] == first_seen(input@.take(i)).len() by {
                        if i < k {
                            assert(old_indices[i] == indices@[i]);
                        }
                    }
                }
            },
        }
        assert forall|j: int| 0 <= j < k + 1 implies #[trigger] indices@[j] < unique@.len()
            && unique@[indices@[j] as int] == input@.take(k + 1)[j] by {
            if j < k {
                assert(old_indices[j] == indices@[j]);
                assert(input@.take(k as int)[j] == input@.take(k + 1)[j]);
            }
        }
        k += 1;
    }
    assert(input@.take(input@.len() as int) =~= input@);
    (unique, indices)
}

} // verus!
