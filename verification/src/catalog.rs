//! The patch catalog: patch definitions plus the selections that apply them.
use vstd::prelude::*;

use crate::patch::{
    selector_target, target_matches, DefinitionModel, PatchDefinition, PatchId, PatchSelection,
    SelectionModel, SelectorModel, TargetModel,
};
use crate::same::is_first_repeat;
use crate::sorted::{collect_sorted, find_by_key, has_key, keys_of, sorted_keys, Keyed};
use crate::text::{chars_of, concat3, lemma_text_lt_irreflexive};

verus! {

/// The model of a catalog error: which rule failed, and for which patch id.
pub enum CatalogErrorModel {
    DuplicateDefinition(Seq<char>),
    UnknownSelectedPatch(Seq<char>),
    SelectedPatchTargetMismatch(Seq<char>),
}

#[derive(Debug, Clone, PartialEq, Eq)]
pub enum PatchCatalogError {
    DuplicateDefinition(PatchId),
    UnknownSelectedPatch(PatchId),
    SelectedPatchTargetMismatch(PatchId),
}

impl View for PatchCatalogError {
    type V = CatalogErrorModel;

    open spec fn view(&self) -> CatalogErrorModel {
        match self {
            PatchCatalogError::DuplicateDefinition(p) => CatalogErrorModel::DuplicateDefinition(p@),
            PatchCatalogError::UnknownSelectedPatch(p) => CatalogErrorModel::UnknownSelectedPatch(p@),
            PatchCatalogError::SelectedPatchTargetMismatch(p) => CatalogErrorModel::SelectedPatchTargetMismatch(p@),
        }
    }
}

impl PatchCatalogError {
    pub open spec fn describe(self) -> Seq<char> {
        match self {
            PatchCatalogError::DuplicateDefinition(p) => "patch catalog contains duplicate patch `"@
                + p@ + "`"@,
            PatchCatalogError::UnknownSelectedPatch(p) => "patch selection references unknown patch `"@
                + p@ + "`"@,
            PatchCatalogError::SelectedPatchTargetMismatch(p) => "patch `"@ + p@
                + "` targets a different package than its selection"@,
        }
    }

    /// A human-readable description of the error.
    pub fn message(&self) -> (s: String)
        ensures
            s@ == self.describe(),
    {
        match self {
            PatchCatalogError::DuplicateDefinition(p) => concat3(
                "patch catalog contains duplicate patch `",
                p.content_hash().as_str(),
                "`",
            ),
            PatchCatalogError::UnknownSelectedPatch(p) => concat3(
                "patch selection references unknown patch `",
                p.content_hash().as_str(),
                "`",
            ),
            PatchCatalogError::SelectedPatchTargetMismatch(p) => concat3(
                "patch `",
                p.content_hash().as_str(),
                "` targets a different package than its selection",
            ),
        }
    }
}

/// Some definition has id `p`.
pub open spec fn defines(defs: Seq<DefinitionModel>, p: Seq<char>) -> bool {
    exists|i: int| 0 <= i < defs.len() && (#[trigger] defs[i]).id == p
}

/// Some definition has id `p` and a base that `t` matches.
pub open spec fn defines_for(defs: Seq<DefinitionModel>, p: Seq<char>, t: TargetModel) -> bool {
    exists|i: int|
        0 <= i < defs.len() && (#[trigger] defs[i]).id == p && target_matches(
            t,
            defs[i].base.revision.source,
        )
}

/// The first patch of `ps` that is not defined, or whose definition's base `t` does not match.
pub open spec fn stack_error(defs: Seq<DefinitionModel>, t: TargetModel, ps: Seq<Seq<char>>) -> Option<
    CatalogErrorModel,
>
    decreases ps.len(),
{
    if ps.len() == 0 {
        None
    } else if !defines(defs, ps[0]) {
        Some(CatalogErrorModel::UnknownSelectedPatch(ps[0]))
    } else if !defines_for(defs, ps[0], t) {
        Some(CatalogErrorModel::SelectedPatchTargetMismatch(ps[0]))
    } else {
        stack_error(defs, t, ps.drop_first())
    }
}

/// The first error among the selections, in order, and the patches of each, in order.
pub open spec fn selections_error(defs: Seq<DefinitionModel>, sels: Seq<SelectionModel>) -> Option<
    CatalogErrorModel,
>
    decreases sels.len(),
{
    if sels.len() == 0 {
        None
    } else {
        match stack_error(defs, selector_target(sels[0].selector), sels[0].stack) {
            Some(e) => Some(e),
            None => selections_error(defs, sels.drop_first()),
        }
    }
}

proof fn lemma_stack_error_same_set(
    a: Seq<DefinitionModel>,
    b: Seq<DefinitionModel>,
    t: TargetModel,
    ps: Seq<Seq<char>>,
)
    requires
        a.to_set() == b.to_set(),
    ensures
        stack_error(a, t, ps) == stack_error(b, t, ps),
    decreases ps.len(),
{
    if ps.len() > 0 {
        let p = ps[0];
        if defines(a, p) {
            let i = choose|i: int| 0 <= i < a.len() && (#[trigger] a[i]).id == p;
            assert(a.to_set().contains(a[i]));
            assert(b.to_set().contains(a[i]));
        }
        if defines(b, p) {
            let i = choose|i: int| 0 <= i < b.len() && (#[trigger] b[i]).id == p;
            assert(b.to_set().contains(b[i]));
            assert(a.to_set().contains(b[i]));
        }
        if defines_for(a, p, t) {
            let i = choose|i: int|
                0 <= i < a.len() && (#[trigger] a[i]).id == p && target_matches(
                    t,
                    a[i].base.revision.source,
                );
            assert(a.to_set().contains(a[i]));
            assert(b.to_set().contains(a[i]));
        }
        if defines_for(b, p, t) {
            let i = choose|i: int|
                0 <= i < b.len() && (#[trigger] b[i]).id == p && target_matches(
                    t,
                    b[i].base.revision.source,
                );
            assert(b.to_set().contains(b[i]));
            assert(a.to_set().contains(b[i]));
        }
        lemma_stack_error_same_set(a, b, t, ps.drop_first());
    }
}

/// Which selections are in error depends only on the set of definitions.
proof fn lemma_selections_error_same_set(
    a: Seq<DefinitionModel>,
    b: Seq<DefinitionModel>,
    sels: Seq<SelectionModel>,
)
    requires
        a.to_set() == b.to_set(),
    ensures
        selections_error(a, sels) == selections_error(b, sels),
    decreases sels.len(),
{
    if sels.len() > 0 {
        lemma_stack_error_same_set(a, b, selector_target(sels[0].selector), sels[0].stack);
        lemma_selections_error_same_set(a, b, sels.drop_first());
    }
}

/// Every patch that a valid catalog selects is defined, and its definition's base matches
/// the selection's target.
pub proof fn lemma_selected_patches_defined(
    defs: Seq<DefinitionModel>,
    sels: Seq<SelectionModel>,
    s: int,
    k: int,
)
    requires
        selections_error(defs, sels) is None,
        0 <= s < sels.len(),
        0 <= k < sels[s].stack.len(),
    ensures
        defines_for(defs, sels[s].stack[k], selector_target(sels[s].selector)),
    decreases sels.len(),
{
    if s > 0 {
        lemma_selected_patches_defined(defs, sels.drop_first(), s - 1, k);
    } else {
        lemma_stack_patch_defined(defs, selector_target(sels[0].selector), sels[0].stack, k);
    }
}

proof fn lemma_stack_patch_defined(defs: Seq<DefinitionModel>, t: TargetModel, ps: Seq<Seq<char>>, k: int)
    requires
        stack_error(defs, t, ps) is None,
        0 <= k < ps.len(),
    ensures
        defines_for(defs, ps[k], t),
    decreases ps.len(),
{
    if k > 0 {
        lemma_stack_patch_defined(defs, t, ps.drop_first(), k - 1);
    }
}

/// A selection that stacks one patch on an edge's target package is accepted when the patch
/// is defined on a source of that package, whatever the edge's parent is.
pub proof fn lemma_edge_selection_checks_target(
    defs: Seq<DefinitionModel>,
    i: int,
    parent: TargetModel,
    name: Seq<char>,
)
    requires
        0 <= i < defs.len(),
        defs[i].base.revision.source.name == name,
    ensures
        selections_error(
            defs,
            seq![
                SelectionModel {
                    selector: SelectorModel::Edge { parent, target: TargetModel::Package(name) },
                    stack: seq![defs[i].id],
                },
            ],
        ) is None,
{
    let sel = SelectionModel {
        selector: SelectorModel::Edge { parent, target: TargetModel::Package(name) },
        stack: seq![defs[i].id],
    };
    let t = TargetModel::Package(name);
    let sels = seq![sel];
    assert(sels[0] == sel);
    assert(selector_target(sel.selector) == t);
    assert(sel.stack[0] == defs[i].id);
    assert(target_matches(t, defs[i].base.revision.source));
    assert(defines(defs, sel.stack[0]));
    assert(defines_for(defs, sel.stack[0], t));
    assert(sel.stack.drop_first() =~= Seq::<Seq<char>>::empty());
    assert(stack_error(defs, t, sel.stack.drop_first()) is None);
    assert(stack_error(defs, t, sel.stack) is None);
    assert(sels.drop_first() =~= Seq::<SelectionModel>::empty());
    assert(selections_error(defs, sels.drop_first()) is None);
}

/// The model of a catalog: definitions in increasing order of id, and selections in order.
pub struct CatalogModel {
    pub definitions: Seq<DefinitionModel>,
    pub selections: Seq<SelectionModel>,
}

/// Patch definitions plus the graph policy that selects them.
///
/// Definitions without selections are allowed so users can commit a patch before enabling it.
/// Catalog construction checks that selections reference known patches with matching targets.
/// The same patch may appear in multiple selections, but a resolver must not apply the same patch
/// twice to a single package revision. Stack composition is validated during resolution because it
/// depends on the resolved package candidate.
#[derive(Debug, PartialEq, Eq)]
pub struct PatchCatalog {
    definitions: Vec<PatchDefinition>,
    selections: Vec<PatchSelection>,
}

impl View for PatchCatalog {
    type V = CatalogModel;

    closed spec fn view(&self) -> CatalogModel {
        CatalogModel {
            definitions: self.definitions.deep_view(),
            selections: self.selections.deep_view(),
        }
    }
}

impl PatchCatalog {
    #[verifier::type_invariant]
    closed spec fn consistent(self) -> bool {
        &&& sorted_keys::<PatchDefinition>(self.definitions.deep_view())
        &&& selections_error(self.definitions.deep_view(), self.selections.deep_view()) is None
    }

    /// A catalog of the given definitions and selections: no two definitions share an id, and
    /// every selected patch is defined with a base that its selection's target matches.
    pub fn new(definitions: Vec<PatchDefinition>, selections: Vec<PatchSelection>) -> (r: Result<
        Self,
        PatchCatalogError,
    >)
        ensures
            match r {
                Ok(catalog) => {
                    &&& keys_of::<PatchDefinition>(definitions.deep_view()).no_duplicates()
                    &&& selections_error(definitions.deep_view(), selections.deep_view()) is None
                    &&& catalog@.definitions.to_set() == definitions.deep_view().to_set()
                    &&& catalog@.definitions.len() == definitions.deep_view().len()
                    &&& sorted_keys::<PatchDefinition>(catalog@.definitions)
                    &&& catalog@.selections == selections.deep_view()
                },
                Err(e) => {
                    ||| exists|j: int|
                        is_first_repeat(keys_of::<PatchDefinition>(definitions.deep_view()), j)
                            && e@ == CatalogErrorModel::DuplicateDefinition(
                            keys_of::<PatchDefinition>(definitions.deep_view())[j],
                        )
                    ||| keys_of::<PatchDefinition>(definitions.deep_view()).no_duplicates()
                        && selections_error(definitions.deep_view(), selections.deep_view())
                        == Some(e@)
                },
            },
    {
        let ghost defs = definitions.deep_view();
        let ghost sels = selections.deep_view();
        let indexed = match collect_sorted(definitions) {
            Ok(v) => v,
            Err(duplicate) => {
                proof {
                    let j = choose|j: int|
                        is_first_repeat(keys_of::<PatchDefinition>(defs), j)
                            && duplicate.deep_view() == defs[j];
                    assert(keys_of::<PatchDefinition>(defs)[j] == defs[j].id);
                }
                return Err(PatchCatalogError::DuplicateDefinition(duplicate.id().clone()));
            },
        };
        let ghost idx = indexed.deep_view();
        proof {
            lemma_selections_error_same_set(idx, defs, sels);
        }
        let mut si: usize = 0;
        assert(sels.skip(0) == sels);
        while si < selections.len()
            invariant
                sels == selections.deep_view(),
                defs == definitions.deep_view(),
                keys_of::<PatchDefinition>(defs).no_duplicates(),
                selections_error(idx, sels) == selections_error(defs, sels),
                idx == indexed.deep_view(),
                sorted_keys::<PatchDefinition>(idx),
                si <= sels.len(),
                selections_error(idx, sels) == selections_error(idx, sels.skip(si as int)),
            decreases sels.len() - si,
        {
            let selection = &selections[si];
            let target = selection.selector().target();
            let patches = selection.stack().patches();
            let ghost sel = sels[si as int];
            let ghost t = selector_target(sel.selector);
            let ghost ps = sel.stack;
            assert(sel == selection@);
            assert(sels.skip(si as int)[0] == sel);
            assert(sels.skip(si as int).drop_first() == sels.skip(si + 1));
            let mut pi: usize = 0;
            assert(ps.skip(0) == ps);
            while pi < patches.len()
                invariant
                    sels == selections.deep_view(),
                    defs == definitions.deep_view(),
                    keys_of::<PatchDefinition>(defs).no_duplicates(),
                    selections_error(idx, sels) == selections_error(defs, sels),
                    idx == indexed.deep_view(),
                    sorted_keys::<PatchDefinition>(idx),
                    si < sels.len(),
                    selections_error(idx, sels) == selections_error(idx, sels.skip(si as int)),
                    sel == sels[si as int],
                    t == selector_target(sel.selector),
                    target@ == t,
                    ps == sel.stack,
                    patches@.len() == ps.len(),
                    forall|i: int| 0 <= i < patches@.len() ==> patches@[i]@ == ps[i],
                    pi <= ps.len(),
                    stack_error(idx, t, ps) == stack_error(idx, t, ps.skip(pi as int)),
                decreases ps.len() - pi,
            {
                let patch = &patches[pi];
                let ghost p = ps[pi as int];
                assert(ps.skip(pi as int)[0] == p);
                assert(ps.skip(pi as int).drop_first() == ps.skip(pi + 1));
                let key = chars_of(patch.content_hash().as_str());
                match find_by_key(&indexed, &key) {
                    None => {
                        assert(!defines(idx, p)) by {
                            if defines(idx, p) {
                                let i = choose|i: int| 0 <= i < idx.len() && (#[trigger] idx[i]).id == p;
                                assert(PatchDefinition::key_of(idx[i]) == p);
                            }
                        }
                        assert(selections_error(idx, sels.skip(si as int)) == Some(
                            CatalogErrorModel::UnknownSelectedPatch(p),
                        ));
                        return Err(PatchCatalogError::UnknownSelectedPatch(patch.clone()));
                    },
                    Some(k) => {
                        let found = &indexed[k];
                        let base_source = found.base().revision().source();
                        let matched = target.matches_source(base_source);
                        assert(idx[k as int] == found@);
                        assert(defines(idx, p));
                        assert(defines_for(idx, p, t) == matched) by {
                            if defines_for(idx, p, t) {
                                let i = choose|i: int|
                                    0 <= i < idx.len() && (#[trigger] idx[i]).id == p
                                        && target_matches(t, idx[i].base.revision.source);
                                if i != k {
                                    if i < k {
                                        assert(crate::text::text_lt(
                                            PatchDefinition::key_of(idx[i]),
                                            PatchDefinition::key_of(idx[k as int]),
                                        ));
                                    } else {
                                        assert(crate::text::text_lt(
                                            PatchDefinition::key_of(idx[k as int]),
                                            PatchDefinition::key_of(idx[i]),
                                        ));
                                    }
                                    lemma_text_lt_irreflexive(p);
                                }
                            }
                        }
                        if !matched {
                            assert(selections_error(idx, sels.skip(si as int)) == Some(
                                CatalogErrorModel::SelectedPatchTargetMismatch(p),
                            ));
                            return Err(PatchCatalogError::SelectedPatchTargetMismatch(patch.clone()));
                        }
                    },
                }
                pi = pi + 1;
            }
            assert(ps.skip(pi as int).len() == 0);
            si = si + 1;
        }
        assert(sels.skip(si as int).len() == 0);
        Ok(PatchCatalog { definitions: indexed, selections })
    }

    pub fn empty() -> (r: Self)
        ensures
            r@.definitions.len() == 0,
            r@.selections.len() == 0,
    {
        let definitions: Vec<PatchDefinition> = Vec::new();
        let selections: Vec<PatchSelection> = Vec::new();
        assert(selections.deep_view().len() == 0);
        PatchCatalog { definitions, selections }
    }

    /// The definitions in increasing order of id; every selected patch is among them,
    /// with a base that its selection's target matches.
    pub fn definitions(&self) -> (r: &[PatchDefinition])
        ensures
            r@.len() == self@.definitions.len(),
            forall|i: int| 0 <= i < r@.len() ==> r@[i]@ == self@.definitions[i],
            sorted_keys::<PatchDefinition>(self@.definitions),
            selections_error(self@.definitions, self@.selections) is None,
    {
        proof {
            use_type_invariant(self);
        }
        self.definitions.as_slice()
    }

    /// The definition with the given id, if there is one.
    pub fn get(&self, id: &PatchId) -> (r: Option<&PatchDefinition>)
        ensures
            match r {
                Some(d) => d@.id == id@ && self@.definitions.contains(d@),
                None => !defines(self@.definitions, id@),
            },
    {
        let key = chars_of(id.content_hash().as_str());
        match find_by_key(&self.definitions, &key) {
            Some(k) => {
                assert(self@.definitions[k as int] == self.definitions@[k as int]@);
                Some(&self.definitions[k])
            },
            None => {
                assert(!defines(self@.definitions, id@)) by {
                    if defines(self@.definitions, id@) {
                        let i = choose|i: int|
                            0 <= i < self@.definitions.len() && (#[trigger] self@.definitions[i]).id
                                == id@;
                        assert(PatchDefinition::key_of(self@.definitions[i]) == id@);
                        assert(has_key::<PatchDefinition>(self.definitions.deep_view(), id@));
                    }
                }
                None
            },
        }
    }

    /// The selections, in the order they were given.
    pub fn selections(&self) -> (r: &[PatchSelection])
        ensures
            r@.len() == self@.selections.len(),
            forall|i: int| 0 <= i < r@.len() ==> r@[i]@ == self@.selections[i],
            selections_error(self@.definitions, self@.selections) is None,
    {
        proof {
            use_type_invariant(self);
        }
        self.selections.as_slice()
    }
}

} // verus!
