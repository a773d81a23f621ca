//! A model of the audio server's module list, and what the audio bridge's
//! requests do to it when the server carries them out.

use crate::pulse::{
    create_plan, is_virtual_mic, module_options, remove_plan, source_name_marker, unload_plan,
    unload_requests, ModuleView, RequestView, REMAP_MODULE,
};
use crate::text::occurs_at;
use vstd::prelude::*;

verus! {

/// The virtual microphone modules among `modules`, in listing order.
pub open spec fn virtual_mics(modules: Seq<ModuleView>) -> Seq<ModuleView>
    decreases modules.len(),
{
    if modules.len() == 0 {
        Seq::empty()
    } else if is_virtual_mic(modules.last()) {
        virtual_mics(modules.drop_last()).push(modules.last())
    } else {
        virtual_mics(modules.drop_last())
    }
}

/// `modules` without those listed under `index`.
pub open spec fn without_index(modules: Seq<ModuleView>, index: u32) -> Seq<ModuleView>
    decreases modules.len(),
{
    if modules.len() == 0 {
        Seq::empty()
    } else if modules.last().index == index {
        without_index(modules.drop_last(), index)
    } else {
        without_index(modules.drop_last(), index).push(modules.last())
    }
}

/// `modules` without those listed under an index of `plan`.
pub open spec fn without_indexes(modules: Seq<ModuleView>, plan: Seq<u32>) -> Seq<ModuleView>
    decreases modules.len(),
{
    if modules.len() == 0 {
        Seq::empty()
    } else if plan.contains(modules.last().index) {
        without_indexes(modules.drop_last(), plan)
    } else {
        without_indexes(modules.drop_last(), plan).push(modules.last())
    }
}

/// The module that the server lists, under `index`, once it has carried out
/// the load request for `source`.
pub open spec fn loaded_virtual_mic(source: Seq<char>, index: u32) -> ModuleView {
    ModuleView { index, name: Some(REMAP_MODULE@), argument: Some(module_options(source)) }
}

/// The server's module list once it has carried out `request`. A module
/// that it loads is listed last, under the index `fresh`.
pub open spec fn after_request(modules: Seq<ModuleView>, request: RequestView, fresh: u32) -> Seq<
    ModuleView,
> {
    match request {
        RequestView::UnloadModule(index) => without_index(modules, index),
        RequestView::LoadModule { name, argument } => modules.push(
            ModuleView { index: fresh, name: Some(name), argument: Some(argument) },
        ),
    }
}

/// The server's module list once it has carried out `requests`, in order.
pub open spec fn after_requests(
    modules: Seq<ModuleView>,
    requests: Seq<RequestView>,
    fresh: u32,
) -> Seq<ModuleView>
    decreases requests.len(),
{
    if requests.len() == 0 {
        modules
    } else {
        after_request(
            after_requests(modules, requests.drop_last(), fresh),
            requests.last(),
            fresh,
        )
    }
}

/// The server's module list once the virtual microphone has been created on
/// top of `source`: the server lists `modules`, and carries out the requests
/// that the bridge makes for that list.
pub open spec fn after_create(modules: Seq<ModuleView>, source: Seq<char>, fresh: u32) -> Seq<
    ModuleView,
> {
    after_requests(modules, create_plan(modules, source), fresh)
}

/// The server's module list after one creation for each entry of `loads`, a
/// source and the index that the server gives its module, in order.
pub open spec fn after_creates(modules: Seq<ModuleView>, loads: Seq<(Seq<char>, u32)>) -> Seq<
    ModuleView,
>
    decreases loads.len(),
{
    if loads.len() == 0 {
        modules
    } else {
        after_create(after_creates(modules, loads.drop_last()), loads.last().0, loads.last().1)
    }
}

/// The module that a load request creates is recognised as a virtual
/// microphone, whatever the physical source is called.
pub proof fn lemma_loaded_module_is_virtual_mic(source: Seq<char>, index: u32)
    ensures
        is_virtual_mic(loaded_virtual_mic(source, index)),
{
    reveal_strlit("master=");
    reveal_strlit(" ");
    let marker = source_name_marker();
    let options = module_options(source);
    let at = (8 + source.len()) as int;
    assert(options.subrange(at, at + marker.len()) =~= marker);
    assert(occurs_at(options, marker, at));
}

/// The unload plan names each virtual microphone's index, in listing order.
pub proof fn lemma_plan_lists_virtual_mics(modules: Seq<ModuleView>)
    ensures
        unload_plan(modules) == virtual_mics(modules).map_values(|m: ModuleView| m.index),
    decreases modules.len(),
{
    if modules.len() > 0 {
        lemma_plan_lists_virtual_mics(modules.drop_last());
    }
    assert(unload_plan(modules) =~= virtual_mics(modules).map_values(|m: ModuleView| m.index));
}

/// Where no virtual microphone is loaded, removing it asks nothing of the server.
pub proof fn lemma_nothing_to_remove(modules: Seq<ModuleView>)
    requires
        forall|i: int| 0 <= i < modules.len() ==> !is_virtual_mic(#[trigger] modules[i]),
    ensures
        remove_plan(modules) == Seq::<RequestView>::empty(),
    decreases modules.len(),
{
    if modules.len() > 0 {
        let front = modules.drop_last();
        assert forall|i: int| 0 <= i < front.len() implies !is_virtual_mic(#[trigger] front[i]) by {
            assert(front[i] == modules[i]);
        }
        lemma_nothing_to_remove(front);
        assert(!is_virtual_mic(modules[modules.len() - 1]));
    }
    assert(remove_plan(modules) =~= Seq::<RequestView>::empty());
}

proof fn lemma_plan_covers(modules: Seq<ModuleView>, i: int)
    requires
        0 <= i < modules.len(),
        is_virtual_mic(modules[i]),
    ensures
        unload_plan(modules).contains(modules[i].index),
    decreases modules.len(),
{
    let plan = unload_plan(modules);
    if i == modules.len() - 1 {
        assert(plan[plan.len() - 1] == modules[i].index);
    } else {
        lemma_plan_covers(modules.drop_last(), i);
        let front = unload_plan(modules.drop_last());
        let k = choose|k: int| 0 <= k < front.len() && front[k] == modules[i].index;
        assert(plan[k] == modules[i].index);
    }
}

proof fn lemma_without_indexes_leaves_none(modules: Seq<ModuleView>, plan: Seq<u32>)
    requires
        forall|i: int|
            0 <= i < modules.len() && is_virtual_mic(#[trigger] modules[i]) ==> plan.contains(
                modules[i].index,
            ),
    ensures
        virtual_mics(without_indexes(modules, plan)) == Seq::<ModuleView>::empty(),
    decreases modules.len(),
{
    if modules.len() > 0 {
        let front = modules.drop_last();
        assert forall|i: int| 0 <= i < front.len() && is_virtual_mic(#[trigger] front[i]) implies plan.contains(
            front[i].index,
        ) by {
            assert(front[i] == modules[i]);
        }
        lemma_without_indexes_leaves_none(front, plan);
        if !plan.contains(modules.last().index) {
            let rest = without_indexes(front, plan);
            let kept = rest.push(modules.last());
            assert(!is_virtual_mic(modules[modules.len() - 1]));
            assert(kept.drop_last() =~= rest);
        }
    }
}

proof fn lemma_without_one_more(modules: Seq<ModuleView>, plan: Seq<u32>, index: u32)
    ensures
        without_index(without_indexes(modules, plan), index) == without_indexes(
            modules,
            plan.push(index),
        ),
    decreases modules.len(),
{
    let more = plan.push(index);
    assert forall|i: u32| more.contains(i) <==> plan.contains(i) || i == index by {
        if plan.contains(i) {
            let k = choose|k: int| 0 <= k < plan.len() && plan[k] == i;
            assert(more[k] == i);
        }
        if i == index {
            assert(more[plan.len() as int] == i);
        }
    }
    if modules.len() > 0 {
        let front = modules.drop_last();
        lemma_without_one_more(front, plan, index);
        if !plan.contains(modules.last().index) {
            let kept = without_indexes(front, plan).push(modules.last());
            assert(kept.drop_last() =~= without_indexes(front, plan));
        }
    }
}

proof fn lemma_unloads_remove_indexes(modules: Seq<ModuleView>, plan: Seq<u32>, fresh: u32)
    ensures
        after_requests(modules, unload_requests(plan), fresh) == without_indexes(modules, plan),
    decreases plan.len(),
{
    let requests = unload_requests(plan);
    if plan.len() == 0 {
        assert(plan =~= Seq::empty());
        lemma_without_nothing(modules);
    } else {
        let front = plan.drop_last();
        assert(requests.drop_last() =~= unload_requests(front));
        assert(requests.last() == RequestView::UnloadModule(plan.last()));
        lemma_unloads_remove_indexes(modules, front, fresh);
        lemma_without_one_more(modules, front, plan.last());
        assert(front.push(plan.last()) =~= plan);
    }
}

proof fn lemma_without_nothing(modules: Seq<ModuleView>)
    ensures
        without_indexes(modules, Seq::empty()) == modules,
    decreases modules.len(),
{
    if modules.len() > 0 {
        lemma_without_nothing(modules.drop_last());
        assert(modules.drop_last().push(modules.last()) =~= modules);
    }
}

/// Once the server has carried out the requests that remove the virtual
/// microphone, none is loaded, and removing it again asks nothing more.
pub proof fn lemma_remove_leaves_none(modules: Seq<ModuleView>, fresh: u32)
    ensures
        virtual_mics(after_requests(modules, remove_plan(modules), fresh)) == Seq::<
            ModuleView,
        >::empty(),
        remove_plan(after_requests(modules, remove_plan(modules), fresh)) == Seq::<
            RequestView,
        >::empty(),
{
    let plan = unload_plan(modules);
    assert forall|i: int|
        0 <= i < modules.len() && is_virtual_mic(#[trigger] modules[i]) implies plan.contains(
        modules[i].index,
    ) by {
        lemma_plan_covers(modules, i);
    }
    lemma_without_indexes_leaves_none(modules, plan);
    lemma_unloads_remove_indexes(modules, plan, fresh);
    let rest = after_requests(modules, remove_plan(modules), fresh);
    lemma_plan_lists_virtual_mics(rest);
    assert(remove_plan(rest) =~= Seq::<RequestView>::empty());
}

/// After a virtual microphone has been created, exactly one is loaded,
/// whatever was loaded before: the one on top of the source just asked for.
/// Removing it then takes one unload, of that module.
pub proof fn lemma_create_leaves_one(modules: Seq<ModuleView>, source: Seq<char>, fresh: u32)
    ensures
        virtual_mics(after_create(modules, source, fresh)) == seq![
            loaded_virtual_mic(source, fresh),
        ],
        remove_plan(after_create(modules, source, fresh)) == seq![
            RequestView::UnloadModule(fresh),
        ],
{
    lemma_remove_leaves_none(modules, fresh);
    lemma_loaded_module_is_virtual_mic(source, fresh);
    let plan = create_plan(modules, source);
    assert(plan.drop_last() =~= remove_plan(modules));
    let rest = after_requests(modules, remove_plan(modules), fresh);
    let now = after_create(modules, source, fresh);
    assert(now == rest.push(loaded_virtual_mic(source, fresh)));
    assert(now.drop_last() =~= rest);
    assert(virtual_mics(now) =~= seq![loaded_virtual_mic(source, fresh)]);
    lemma_plan_lists_virtual_mics(now);
    assert(remove_plan(now) =~= seq![RequestView::UnloadModule(fresh)]);
}

/// After any number of creations, at least one, exactly one virtual
/// microphone is loaded: the one on top of the source asked for last.
pub proof fn lemma_creates_leave_latest(modules: Seq<ModuleView>, loads: Seq<(Seq<char>, u32)>)
    requires
        loads.len() > 0,
    ensures
        virtual_mics(after_creates(modules, loads)) == seq![
            loaded_virtual_mic(loads.last().0, loads.last().1),
        ],
{
    lemma_create_leaves_one(
        after_creates(modules, loads.drop_last()),
        loads.last().0,
        loads.last().1,
    );
}

} // verus!
