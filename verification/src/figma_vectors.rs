//! The vector layers of a Figma design: how each one is rendered, the
//! container of a group of SVG layers, and the resolution of layers whose
//! SVG is exported after the design was walked.

use vstd::prelude::*;
use crate::figma::VectorNode;
use crate::figma_jsx::{create_inline_vector_jsx_element, inline_vector};
use crate::jsx::{JsxElement, NodeV, attrs_view, el, el_view, element, no_attrs, no_children, push_attr, str_attr,
    str_attr_of};
use crate::keyed::{KeyedMap, keyed_map};
use crate::text::owned;

verus! {

/// The view of the container of a group of SVG layers: an `svg` element of
/// the default 100 by 100 size, marked with the group's id; the layers are
/// put in it later.
pub open spec fn svg_group_view(group_id: Seq<char>) -> NodeV {
    el("svg"@, seq![
        str_attr("width"@, "100"@),
        str_attr("height"@, "100"@),
        str_attr("viewBox"@, "0 0 100 100"@),
        str_attr("xmlns"@, "http://www.w3.org/2000/svg"@),
        str_attr("data-svg-group"@, group_id),
    ], seq![])
}

/// The container of the group of SVG layers `group_id`.
pub fn create_svg_group_container(group_id: &str) -> (r: JsxElement)
    ensures
        el_view(r) == svg_group_view(group_id@),
{
    let mut attrs = no_attrs();
    push_attr(&mut attrs, str_attr_of("width", "100"));
    push_attr(&mut attrs, str_attr_of("height", "100"));
    push_attr(&mut attrs, str_attr_of("viewBox", "0 0 100 100"));
    push_attr(&mut attrs, str_attr_of("xmlns", "http://www.w3.org/2000/svg"));
    push_attr(&mut attrs, str_attr_of("data-svg-group", group_id));
    let r = element("svg", attrs, no_children());
    assert(attrs_view(attrs@) =~= seq![
        str_attr("width"@, "100"@),
        str_attr("height"@, "100"@),
        str_attr("viewBox"@, "0 0 100 100"@),
        str_attr("xmlns"@, "http://www.w3.org/2000/svg"@),
        str_attr("data-svg-group"@, group_id@),
    ]);
    r
}

/// How a vector layer is rendered.
#[derive(Debug)]
pub enum VectorAction {
    /// As inline SVG built from its fill geometry.
    Inline,
    /// As a placeholder, the layer waiting for its exported SVG.
    Pending,
    /// From the SVG that the exporter already holds for it.
    Cached(String),
}

/// How a vector layer is rendered: inline where the export settings do not
/// call for the Figma API; else a placeholder where exports are fetched in
/// a batch later, else the SVG already exported for the layer, or inline
/// where there is none.
pub fn vector_action(use_api: bool, has_channel_and_key: bool, cached: Option<String>) -> (r: VectorAction)
    ensures
        !use_api ==> r is Inline,
        use_api && has_channel_and_key ==> r is Pending,
        use_api && !has_channel_and_key ==> match cached {
            Some(svg) => r == VectorAction::Cached(svg),
            None => r is Inline,
        },
{
    if !use_api {
        VectorAction::Inline
    } else if has_channel_and_key {
        VectorAction::Pending
    } else {
        match cached {
            Some(svg) => VectorAction::Cached(svg),
            None => VectorAction::Inline,
        }
    }
}

/// What a pending vector layer is resolved to.
#[derive(Debug)]
pub enum ResolvedVector {
    /// The SVG exported for it.
    Svg(String),
    /// Inline SVG built from its fill geometry.
    Inline(JsxElement),
}

/// The view of a resolved layer.
pub enum ResolvedV {
    Svg(Seq<char>),
    Inline(NodeV),
}

/// The view of a resolved layer.
pub open spec fn resolved_view(r: ResolvedVector) -> ResolvedV {
    match r {
        ResolvedVector::Svg(s) => ResolvedV::Svg(s@),
        ResolvedVector::Inline(e) => ResolvedV::Inline(el_view(e)),
    }
}

/// The inline renderings of vector layers.
pub open spec fn inline_all(m: Map<Seq<char>, VectorNode>) -> Map<Seq<char>, ResolvedV> {
    m.map_values(|v: VectorNode| ResolvedV::Inline(inline_vector(v)))
}

/// What the layers `m` become once the exports were fetched in a batch: the
/// SVG held in `cache` for a layer, else its inline rendering.
pub open spec fn cached_or_inline(m: Map<Seq<char>, VectorNode>, cache: Map<Seq<char>, String>) -> Map<Seq<char>, ResolvedV> {
    Map::new(
        |k: Seq<char>| m.dom().contains(k),
        |k: Seq<char>| if cache.dom().contains(k) {
            ResolvedV::Svg(cache[k]@)
        } else {
            ResolvedV::Inline(inline_vector(m[k]))
        },
    )
}

/// The vector layers that wait for their exported SVG, their placeholders,
/// and what the layers resolved so far became.
#[derive(Debug)]
pub struct VectorResolution {
    pending: KeyedMap<VectorNode>,
    placeholders: KeyedMap<JsxElement>,
    elements: KeyedMap<ResolvedVector>,
    resolved: usize,
    total: usize,
}

impl VectorResolution {
    /// The layers still waiting, by id.
    pub closed spec fn pending(&self) -> Map<Seq<char>, VectorNode> {
        self.pending@
    }

    /// The ids of the layers that still show a placeholder.
    pub closed spec fn placeholders(&self) -> Set<Seq<char>> {
        self.placeholders@.dom()
    }

    /// What the layers resolved so far became, by id.
    pub closed spec fn elements(&self) -> Map<Seq<char>, ResolvedV> {
        self.elements@.map_values(|r: ResolvedVector| resolved_view(r))
    }

    /// How many responses resolved a layer.
    pub closed spec fn resolved(&self) -> nat {
        self.resolved as nat
    }

    /// How many layers were waiting at the start.
    pub closed spec fn total(&self) -> nat {
        self.total as nat
    }

    /// The counts stay within a machine word.
    pub closed spec fn wf(&self) -> bool {
        &&& self.pending@.dom().finite()
        &&& self.placeholders@.dom().finite()
        &&& self.resolved + self.pending@.dom().len() + self.placeholders@.dom().len() <= usize::MAX
    }

    /// The resolution of the layers `pending`, each shown for now by its
    /// entry of `placeholders`.
    pub fn new(pending: KeyedMap<VectorNode>, placeholders: KeyedMap<JsxElement>) -> (r: VectorResolution)
        requires
            pending@.dom().len() + placeholders@.dom().len() <= usize::MAX,
        ensures
            r.wf(),
            r.pending() == pending@,
            r.placeholders() == placeholders@.dom(),
            r.elements() == Map::<Seq<char>, ResolvedV>::empty(),
            r.resolved() == 0,
            r.total() == pending@.dom().len(),
    {
        let total = pending.len();
        let _ = placeholders.len();
        let elements: KeyedMap<ResolvedVector> = KeyedMap::new();
        let r = VectorResolution { pending, placeholders, elements, resolved: 0, total };
        assert(r.elements() =~= Map::<Seq<char>, ResolvedV>::empty());
        r
    }

    /// What the layers resolved so far became, by id.
    pub fn resolved_elements(&self) -> (r: &KeyedMap<ResolvedVector>)
        ensures
            r@.map_values(|v: ResolvedVector| resolved_view(v)) == self.elements(),
    {
        &self.elements
    }

    /// How many responses resolved a layer.
    pub fn resolved_count(&self) -> (r: usize)
        ensures
            r == self.resolved(),
    {
        self.resolved
    }

    /// Whether the layer `node_id` still waits.
    pub fn is_waiting(&self, node_id: &str) -> (r: bool)
        ensures
            r == self.pending().dom().contains(node_id@),
    {
        self.pending.get(node_id).is_some()
    }

    /// Whether the layer `node_id` still shows a placeholder.
    pub fn has_placeholder(&self, node_id: &str) -> (r: bool)
        ensures
            r == self.placeholders().contains(node_id@),
    {
        self.placeholders.get(node_id).is_some()
    }

    /// Takes the response for the layer `node_id`: its exported SVG, or
    /// `None` where the export failed. An SVG replaces the layer's
    /// placeholder; a failure renders a waiting layer inline. Each counts as
    /// resolved; the layer no longer waits. Gives whether every layer that
    /// waited at the start is resolved.
    pub fn resolve_response(&mut self, node_id: &str, svg: Option<String>) -> (done: bool)
        requires
            old(self).wf(),
        ensures
            final(self).wf(),
            final(self).total() == old(self).total(),
            final(self).pending() == old(self).pending().remove(node_id@),
            match svg {
                Some(s) => if old(self).placeholders().contains(node_id@) {
                    &&& final(self).placeholders() == old(self).placeholders().remove(node_id@)
                    &&& final(self).elements() == old(self).elements().insert(node_id@, ResolvedV::Svg(s@))
                    &&& final(self).resolved() == old(self).resolved() + 1
                } else {
                    &&& final(self).placeholders() == old(self).placeholders()
                    &&& final(self).elements() == old(self).elements()
                    &&& final(self).resolved() == old(self).resolved()
                },
                None => if old(self).pending().dom().contains(node_id@) {
                    &&& final(self).placeholders() == old(self).placeholders().remove(node_id@)
                    &&& final(self).elements() == old(self).elements().insert(node_id@,
                        ResolvedV::Inline(inline_vector(old(self).pending()[node_id@])))
                    &&& final(self).resolved() == old(self).resolved() + 1
                } else {
                    &&& final(self).placeholders() == old(self).placeholders()
                    &&& final(self).elements() == old(self).elements()
                    &&& final(self).resolved() == old(self).resolved()
                },
            },
            done == (final(self).resolved() >= final(self).total()),
    {
        let ghost p0 = self.pending@;
        let ghost h0 = self.placeholders@;
        let ghost e0 = self.elements@;
        proof {
            vstd::set::axiom_set_remove_len(p0.dom(), node_id@);
        }
        match svg {
            Some(s) => {
                let ghost sv = s@;
                if self.placeholders.remove(node_id).is_some() {
                    proof {
                        vstd::set::axiom_set_remove_len(h0.dom(), node_id@);
                        assert(self.placeholders@.dom() =~= h0.dom().remove(node_id@));
                    }
                    self.elements.insert(node_id.to_string(), ResolvedVector::Svg(s));
                    self.resolved = self.resolved + 1;
                    assert(self.elements() =~= e0.map_values(|r: ResolvedVector| resolved_view(r)).insert(node_id@,
                        ResolvedV::Svg(sv)));
                } else {
                    assert(self.placeholders@ =~= h0);
                }
            },
            None => {
                match self.pending.get(node_id) {
                    Some(vector) => {
                        let jsx = create_inline_vector_jsx_element(vector);
                        let ghost jv = el_view(jsx);
                        self.elements.insert(node_id.to_string(), ResolvedVector::Inline(jsx));
                        let _ = self.placeholders.remove(node_id);
                        proof {
                            if h0.dom().contains(node_id@) {
                                vstd::set::axiom_set_remove_len(h0.dom(), node_id@);
                            } else {
                                assert(h0.remove(node_id@) =~= h0);
                            }
                        }
                        self.resolved = self.resolved + 1;
                        assert(self.elements() =~= e0.map_values(|r: ResolvedVector| resolved_view(r)).insert(
                            node_id@, ResolvedV::Inline(jv)));
                    },
                    None => {},
                }
            },
        }
        let _ = self.pending.remove(node_id);
        proof {
            if !p0.dom().contains(node_id@) {
                assert(p0.remove(node_id@) =~= p0);
            }
        }
        self.resolved >= self.total
    }

    /// Renders every layer still waiting inline, as happens to those left
    /// when the responses stop; none waits afterwards.
    pub fn resolve_remaining(&mut self)
        requires
            old(self).wf(),
        ensures
            final(self).wf(),
            final(self).pending() == Map::<Seq<char>, VectorNode>::empty(),
            final(self).placeholders() == old(self).placeholders(),
            final(self).elements() == old(self).elements().union_prefer_right(inline_all(old(self).pending())),
            final(self).resolved() == old(self).resolved(),
            final(self).total() == old(self).total(),
    {
        let ghost e0 = self.elements();
        let ghost p0 = self.pending@;
        let ghost h0 = self.placeholders@;
        let ghost r0 = self.resolved;
        let ghost t0 = self.total;
        let pairs = self.pending.pairs();
        let mut i: usize = 0;
        while i < pairs.len()
            invariant
                i <= pairs@.len(),
                keyed_map(pairs@) == p0,
                self.placeholders@ == h0,
                self.resolved == r0,
                self.total == t0,
                self.elements@.map_values(|r: ResolvedVector| resolved_view(r))
                    == e0.union_prefer_right(inline_all(keyed_map(pairs@.take(i as int)))),
            decreases pairs@.len() - i,
        {
            let ghost before = self.elements@;
            let jsx = create_inline_vector_jsx_element(&pairs[i].1);
            let ghost jv = el_view(jsx);
            self.elements.insert(pairs[i].0.clone(), ResolvedVector::Inline(jsx));
            proof {
                let k = pairs@[i as int].0@;
                let v = pairs@[i as int].1;
                let m0 = keyed_map(pairs@.take(i as int));
                assert(pairs@.take(i + 1).drop_last() =~= pairs@.take(i as int));
                assert(pairs@.take(i + 1).last() == pairs@[i as int]);
                assert(keyed_map(pairs@.take(i + 1)) == m0.insert(k, v));
                assert(jv == inline_vector(v));
                assert(inline_all(m0.insert(k, v)) =~= inline_all(m0).insert(k, ResolvedV::Inline(jv)));
                assert(self.elements@.map_values(|r: ResolvedVector| resolved_view(r))
                    =~= before.map_values(|r: ResolvedVector| resolved_view(r)).insert(k, ResolvedV::Inline(jv)));
                assert(self.elements@.map_values(|r: ResolvedVector| resolved_view(r))
                    =~= e0.union_prefer_right(inline_all(keyed_map(pairs@.take(i + 1)))));
            }
            i += 1;
        }
        assert(pairs@.take(pairs@.len() as int) =~= pairs@);
        self.pending = KeyedMap::new();
        proof {
            assert(self.pending@.dom() =~= Set::<Seq<char>>::empty());
        }
    }

    /// Resolves every waiting layer once the exports were fetched in a
    /// batch: a layer gets the SVG that `cache` holds for its id, else it is
    /// rendered inline; its placeholder goes, each counts as resolved, and
    /// none waits afterwards.
    pub fn resolve_with_cache(&mut self, cache: &KeyedMap<String>)
        requires
            old(self).wf(),
        ensures
            final(self).wf(),
            final(self).pending() == Map::<Seq<char>, VectorNode>::empty(),
            final(self).placeholders() == old(self).placeholders().difference(old(self).pending().dom()),
            final(self).elements() == old(self).elements().union_prefer_right(
                cached_or_inline(old(self).pending(), cache@)),
            final(self).resolved() == old(self).resolved() + old(self).pending().dom().len(),
            final(self).total() == old(self).total(),
    {
        let ghost e0 = self.elements();
        let ghost p0 = self.pending@;
        let ghost h0 = self.placeholders@;
        let ghost r0 = self.resolved;
        let ghost t0 = self.total;
        let n = self.pending.len();
        let pairs = self.pending.pairs();
        let mut i: usize = 0;
        while i < pairs.len()
            invariant
                i <= pairs@.len(),
                pairs@.len() == n,
                n == p0.dom().len(),
                keyed_map(pairs@) == p0,
                r0 + p0.dom().len() + h0.dom().len() <= usize::MAX,
                self.resolved == r0 + i,
                self.total == t0,
                self.placeholders@.dom() == h0.dom().difference(keyed_map(pairs@.take(i as int)).dom()),
                self.elements@.map_values(|r: ResolvedVector| resolved_view(r))
                    == e0.union_prefer_right(cached_or_inline(keyed_map(pairs@.take(i as int)), cache@)),
            decreases pairs@.len() - i,
        {
            let ghost before = self.elements@;
            let ghost hb = self.placeholders@;
            let value = match cache.get(pairs[i].0.as_str()) {
                Some(svg) => ResolvedVector::Svg(owned(svg.as_str())),
                None => ResolvedVector::Inline(create_inline_vector_jsx_element(&pairs[i].1)),
            };
            let ghost rv = resolved_view(value);
            self.elements.insert(pairs[i].0.clone(), value);
            let _ = self.placeholders.remove(pairs[i].0.as_str());
            self.resolved = self.resolved + 1;
            proof {
                let k = pairs@[i as int].0@;
                let v = pairs@[i as int].1;
                let m0 = keyed_map(pairs@.take(i as int));
                assert(pairs@.take(i + 1).drop_last() =~= pairs@.take(i as int));
                assert(pairs@.take(i + 1).last() == pairs@[i as int]);
                assert(keyed_map(pairs@.take(i + 1)) == m0.insert(k, v));
                assert(cached_or_inline(m0.insert(k, v), cache@) =~= cached_or_inline(m0, cache@).insert(k, rv));
                assert(self.elements@.map_values(|r: ResolvedVector| resolved_view(r))
                    =~= before.map_values(|r: ResolvedVector| resolved_view(r)).insert(k, rv));
                assert(self.placeholders@.dom() =~= h0.dom().difference(m0.insert(k, v).dom()));
            }
            i += 1;
        }
        assert(pairs@.take(pairs@.len() as int) =~= pairs@);
        self.pending = KeyedMap::new();
        proof {
            assert(self.pending@.dom() =~= Set::<Seq<char>>::empty());
            vstd::set_lib::lemma_len_subset(self.placeholders@.dom(), h0.dom());
        }
    }
}

} // verus!
