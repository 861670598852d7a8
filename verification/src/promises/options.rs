//! The options of a session: what is committed, and what the client sees.
use vstd::prelude::*;

use crate::acp::options;
use crate::acp::options::{
    contains_text, current_value, enabled, refresh_models, session_config_options, toggle_text,
    toggled_on, CommittedOptions, ConfigCategory, ConfigKind, ConfigOption, OptionProjection,
    ProjectedOptions, SessionOption, SessionOptionCategory, SessionOptionsSnapshot,
};

verus! {

/// The option at `i` is the one of an identity: the first that has it.
pub open spec fn is_first(options: Seq<SessionOption>, id: Seq<char>, i: int) -> bool {
    &&& 0 <= i < options.len()
    &&& options[i].id@ == id
    &&& forall|j: int| 0 <= j < i ==> (#[trigger] options[j]).id@ != id
}

/// No option has an identity.
pub open spec fn has_none(options: Seq<SessionOption>, id: Seq<char>) -> bool {
    forall|j: int| 0 <= j < options.len() ==> (#[trigger] options[j]).id@ != id
}

/// The first option of an identity, looked for from a position on.
proof fn lemma_value_from(options: Seq<SessionOption>, id: Seq<char>, from: int)
    requires
        0 <= from,
        forall|j: int| 0 <= j < from && j < options.len() ==> (#[trigger] options[j]).id@ != id,
    ensures
        match options::value_from(options, id, from) {
            Some(value) => exists|i: int|
                #[trigger] is_first(options, id, i) && options[i].current_value@ == value,
            None => has_none(options, id),
        },
    decreases options.len() - from,
{
    if from < options.len() {
        if options[from].id@ == id {
            assert(is_first(options, id, from));
        } else {
            lemma_value_from(options, id, from + 1);
        }
    }
}

/// The value of an option is that of the first one with its identity.
proof fn lemma_value_of(options: Seq<SessionOption>, id: Seq<char>, i: int)
    ensures
        is_first(options, id, i) ==> options::value_of(options, id) == Some(
            options[i].current_value@,
        ),
        has_none(options, id) <==> options::value_of(options, id) is None,
{
    lemma_value_from(options, id, 0);
    if is_first(options, id, i) {
        assert(!has_none(options, id)) by {
            assert(options[i].id@ == id);
        }
        let k = choose|k: int|
            #[trigger] is_first(options, id, k) && options[k].current_value@ == options::value_of(
                options,
                id,
            )->0;
        if k < i {
            assert(options[k].id@ != id);
        }
        if i < k {
            assert(options[i].id@ != id);
        }
    }
    if options::value_of(options, id) is Some {
        let k = choose|k: int| #[trigger] is_first(options, id, k);
        assert(options[k].id@ == id);
    }
}

/// The option at `i`, if it is the one of its identity, decides a toggle.
pub open spec fn decides(options: Seq<SessionOption>, id: Seq<char>, i: int, on: bool) -> bool {
    &&& is_first(options, id, i) ==> (on <==> options[i].current_value@ == "enabled"@)
    &&& has_none(options, id) ==> !on
}

/// What options commit to is decided by the option of each identity.
pub proof fn lemma_committed(options: Seq<SessionOption>, committed: CommittedOptions, i: int)
    requires
        options::commits(options, committed),
    ensures
        decides(options, "yolo"@, i, committed.yolo),
        decides(options, "fast"@, i, committed.fast),
        decides(options, "workflow"@, i, committed.workflow),
        is_first(options, "model"@, i) ==> (committed.model matches Some(model) && model@
            == options[i].current_value@),
        has_none(options, "model"@) ==> committed.model is None,
{
    lemma_value_of(options, "yolo"@, i);
    lemma_value_of(options, "fast"@, i);
    lemma_value_of(options, "workflow"@, i);
    lemma_value_of(options, "model"@, i);
}

/// Each toggle that a snapshot commits to follows the option of its own identity, and the model is
/// the value of the option for it.
pub proof fn law_toggles_follow_their_option(
    snapshot: SessionOptionsSnapshot,
    committed: CommittedOptions,
    i: int,
)
    requires
        call_ensures(OptionProjection::apply_committed_options, (&snapshot,), committed),
    ensures
        decides(snapshot.options@, "yolo"@, i, committed.yolo),
        decides(snapshot.options@, "fast"@, i, committed.fast),
        decides(snapshot.options@, "workflow"@, i, committed.workflow),
        is_first(snapshot.options@, "model"@, i) ==> (committed.model matches Some(model) && model@
            == snapshot.options@[i].current_value@),
        has_none(snapshot.options@, "model"@) ==> committed.model is None,
{
    lemma_committed(snapshot.options@, committed, i);
}

/// Changing the value of an option leaves every toggle of another identity as it was.
pub proof fn law_other_options_leave_a_toggle(
    before: SessionOptionsSnapshot,
    after: SessionOptionsSnapshot,
    at: int,
    first: CommittedOptions,
    second: CommittedOptions,
)
    requires
        call_ensures(OptionProjection::apply_committed_options, (&before,), first),
        call_ensures(OptionProjection::apply_committed_options, (&after,), second),
        0 <= at < before.options@.len(),
        after.options@.len() == before.options@.len(),
        after.options@[at].id@ == before.options@[at].id@,
        forall|i: int|
            0 <= i < before.options@.len() && i != at ==> #[trigger] after.options@[i]
                == before.options@[i],
    ensures
        before.options@[at].id@ != "yolo"@ ==> second.yolo == first.yolo,
        before.options@[at].id@ != "fast"@ ==> second.fast == first.fast,
        before.options@[at].id@ != "workflow"@ ==> second.workflow == first.workflow,
        before.options@[at].id@ != "model"@ ==> (first.model is Some <==> second.model is Some) && (
        first.model is Some ==> first.model->0@ == second.model->0@),
{
    lemma_other_value(before.options@, after.options@, at, "yolo"@, 0);
    lemma_other_value(before.options@, after.options@, at, "fast"@, 0);
    lemma_other_value(before.options@, after.options@, at, "workflow"@, 0);
    lemma_other_value(before.options@, after.options@, at, "model"@, 0);
}

/// The value of an option does not depend on options of other identities.
proof fn lemma_other_value(
    before: Seq<SessionOption>,
    after: Seq<SessionOption>,
    at: int,
    id: Seq<char>,
    from: int,
)
    requires
        0 <= from,
        0 <= at < before.len(),
        after.len() == before.len(),
        after[at].id@ == before[at].id@,
        forall|i: int|
            0 <= i < before.len() && i != at ==> #[trigger] after[i] == before[i],
    ensures
        before[at].id@ != id ==> options::value_from(after, id, from) == options::value_from(
            before,
            id,
            from,
        ),
    decreases before.len() - from,
{
    if from < before.len() {
        if from != at {
            assert(after[from] == before[from]);
        }
        lemma_other_value(before, after, at, id, from + 1);
    }
}

/// A snapshot that is newer than what was taken before brings what it commits to, and shows every
/// option where it is to be shown; any other brings nothing and changes nothing.
pub proof fn law_only_newer_snapshots_count(
    projection: &mut OptionProjection,
    snapshot: SessionOptionsSnapshot,
    emit: bool,
    brought: Option<ProjectedOptions>,
    i: int,
)
    requires
        call_ensures(OptionProjection::update, (projection, &snapshot, emit), brought),
    ensures
        final(projection).supports_boolean == old(projection).supports_boolean,
        brought is Some <==> snapshot.version > old(projection).emitted_version,
        brought is None ==> final(projection).emitted_version == old(projection).emitted_version,
        brought is Some ==> {
            let committed = brought->0.committed;
            &&& final(projection).emitted_version == snapshot.version
            &&& decides(snapshot.options@, "yolo"@, i, committed.yolo)
            &&& decides(snapshot.options@, "fast"@, i, committed.fast)
            &&& decides(snapshot.options@, "workflow"@, i, committed.workflow)
            &&& is_first(snapshot.options@, "model"@, i) ==> (committed.model matches Some(model)
                && model@ == snapshot.options@[i].current_value@)
            &&& has_none(snapshot.options@, "model"@) ==> committed.model is None
            &&& brought->0.shown is Some <==> emit
            &&& emit ==> brought->0.shown->0@.len() == snapshot.options@.len()
            &&& emit && 0 <= i < snapshot.options@.len() ==> is_shown_as(
                snapshot.options@[i],
                old(projection).supports_boolean,
                brought->0.shown->0@[i],
            )
        },
{
    if brought is Some {
        lemma_committed(snapshot.options@, brought->0.committed, i);
        if emit && 0 <= i < snapshot.options@.len() {
            lemma_shown(
                snapshot.options@[i],
                old(projection).supports_boolean,
                brought->0.shown->0@[i],
            );
        }
    }
}

/// Showing a snapshot shows its options, and taking it without showing does not; they count
/// alike.
pub proof fn law_shown_snapshots_are_shown(
    projection: &mut OptionProjection,
    snapshot: SessionOptionsSnapshot,
    shown: bool,
    brought: Option<ProjectedOptions>,
    i: int,
)
    requires
        if shown {
            call_ensures(OptionProjection::emit, (projection, &snapshot), brought)
        } else {
            call_ensures(OptionProjection::apply, (projection, &snapshot), brought)
        },
    ensures
        final(projection).supports_boolean == old(projection).supports_boolean,
        brought is Some <==> snapshot.version > old(projection).emitted_version,
        brought is None ==> final(projection).emitted_version == old(projection).emitted_version,
        brought is Some ==> {
            let committed = brought->0.committed;
            &&& final(projection).emitted_version == snapshot.version
            &&& decides(snapshot.options@, "yolo"@, i, committed.yolo)
            &&& decides(snapshot.options@, "fast"@, i, committed.fast)
            &&& decides(snapshot.options@, "workflow"@, i, committed.workflow)
            &&& is_first(snapshot.options@, "model"@, i) ==> (committed.model matches Some(model)
                && model@ == snapshot.options@[i].current_value@)
            &&& brought->0.shown is Some <==> shown
            &&& shown ==> brought->0.shown->0@.len() == snapshot.options@.len()
            &&& shown && 0 <= i < snapshot.options@.len() ==> is_shown_as(
                snapshot.options@[i],
                old(projection).supports_boolean,
                brought->0.shown->0@[i],
            )
        },
{
    if brought is Some {
        lemma_committed(snapshot.options@, brought->0.committed, i);
        if shown && 0 <= i < snapshot.options@.len() {
            lemma_shown(
                snapshot.options@[i],
                old(projection).supports_boolean,
                brought->0.shown->0@[i],
            );
        }
    }
}

/// An option takes exactly two values, on and off.
pub open spec fn is_switch(option: SessionOption) -> bool {
    &&& !option.free_value
    &&& option.values@.len() == 2
    &&& {
        ||| option.values@[0].value@ == "enabled"@ && option.values@[1].value@ == "disabled"@
        ||| option.values@[0].value@ == "disabled"@ && option.values@[1].value@ == "enabled"@
    }
}

/// What a client sees of an option: what it is called and about, and its value, as a switch where
/// it is one and the client knows switches, and else as a choice among its values.
pub open spec fn is_shown_as(option: SessionOption, switches: bool, shown: ConfigOption) -> bool {
    &&& shown.id@ == option.id@
    &&& shown.name@ == option.name@
    &&& shown.description@ == option.description@
    &&& option.id@ == "thinking"@ ==> shown.category == ConfigCategory::ThoughtLevel
    &&& option.id@ != "thinking"@ && option.category == SessionOptionCategory::Model
        ==> shown.category == ConfigCategory::Model
    &&& option.id@ != "thinking"@ && option.category == SessionOptionCategory::Mode
        ==> shown.category == ConfigCategory::Mode
    &&& switches && is_switch(option) ==> shown.kind == ConfigKind::Boolean(
        option.current_value@ == "enabled"@,
    )
    &&& !switches || !is_switch(option) ==> (shown.kind matches ConfigKind::Select {
        current,
        values,
    } && current@ == option.current_value@ && values@ == option.values@)
}

/// Two values that are both on and off are a switch's.
proof fn lemma_switch(option: SessionOption)
    ensures
        options::is_toggle(option) == is_switch(option),
{
    let values = option.values@;
    if options::is_toggle(option) {
        reveal_strlit("enabled");
        reveal_strlit("disabled");
        let on = choose|i: int| 0 <= i < values.len() && #[trigger] values[i].value@ == "enabled"@;
        let off = choose|i: int|
            0 <= i < values.len() && #[trigger] values[i].value@ == "disabled"@;
        assert(values[on].value@.len() != values[off].value@.len());
    }
    if is_switch(option) {
        if values[0].value@ == "enabled"@ {
            assert(values[0].value@ == options::enabled_value());
            assert(values[1].value@ == options::disabled_value());
        } else {
            assert(values[1].value@ == options::enabled_value());
            assert(values[0].value@ == options::disabled_value());
        }
    }
}

/// What a client sees of an option.
pub proof fn lemma_shown(option: SessionOption, switches: bool, shown: ConfigOption)
    requires
        options::shows(option, switches, shown),
    ensures
        is_shown_as(option, switches, shown),
{
    lemma_switch(option);
}

/// The client sees every option of a session, in order.
pub proof fn law_clients_see_every_option(
    snapshot: SessionOptionsSnapshot,
    switches: bool,
    shown: Vec<ConfigOption>,
    i: int,
)
    requires
        call_ensures(session_config_options, (&snapshot, switches), shown),
    ensures
        shown@.len() == snapshot.options@.len(),
        0 <= i < shown@.len() ==> is_shown_as(snapshot.options@[i], switches, shown@[i]),
{
    if 0 <= i < shown@.len() {
        lemma_shown(snapshot.options@[i], switches, shown@[i]);
    }
}

/// The value of an option is that of the first one with its identity; a toggle is on exactly where
/// that value says so, and some toggle of an identity is on exactly where one of them says so.
pub proof fn law_values_are_looked_up(
    all: Vec<SessionOption>,
    id: &str,
    value: Option<&str>,
    on: bool,
    any: bool,
    i: int,
)
    requires
        call_ensures(current_value, (&all, id), value),
        call_ensures(toggled_on, (&all, id), on),
        call_ensures(enabled, (&all, id), any),
    ensures
        is_first(all@, id@, i) ==> value is Some && value->0@ == all@[i].current_value@,
        value is None <==> has_none(all@, id@),
        decides(all@, id@, i, on),
        any <==> exists|k: int|
            0 <= k < all@.len() && #[trigger] all@[k].id@ == id@ && all@[k].current_value@
                == "enabled"@,
{
    lemma_value_of(all@, id@, i);
}

/// A toggle is written as it is read.
pub proof fn law_toggles_are_written_as_read(on: bool, text: String)
    requires
        call_ensures(toggle_text, (on,), text),
    ensures
        on ==> text@ == "enabled"@,
        !on ==> text@ == "disabled"@,
        on <==> text@ == "enabled"@,
{
    reveal_strlit("enabled");
    reveal_strlit("disabled");
    assert("enabled"@.len() != "disabled"@.len());
}

/// A list holds a text exactly where one of its texts is that text.
pub proof fn law_texts_are_found(texts: Vec<String>, text: &str, found: bool)
    requires
        call_ensures(contains_text, (&texts, text), found),
    ensures
        found <==> exists|i: int| 0 <= i < texts@.len() && (#[trigger] texts@[i])@ == text@,
{
}

/// The models that were known stay where they are, every discovered one is known afterwards, none
/// is added twice and none is made up; it is said whether one was new.
pub proof fn law_discovered_models_are_known(
    specs: &mut Vec<String>,
    batch: Vec<String>,
    grown: bool,
    i: int,
)
    requires
        call_ensures(refresh_models, (specs, batch), grown),
    ensures
        old(specs)@.len() <= final(specs)@.len(),
        final(specs)@.take(old(specs)@.len() as int) == old(specs)@,
        grown <==> final(specs)@.len() > old(specs)@.len(),
        0 <= i < batch@.len() ==> exists|k: int|
            0 <= k < final(specs)@.len() && (#[trigger] final(specs)@[k])@ == batch@[i]@,
        old(specs)@.len() <= i < final(specs)@.len() ==> batch@.contains(final(specs)@[i]),
        forall|p: int, q: int|
            0 <= p < q < final(specs)@.len() && old(specs)@.len() <= q ==> (#[trigger] final(
                specs)@[p])@ != (#[trigger] final(specs)@[q])@,
{
    options::law_discovery_adds_each_model_once(old(specs)@, batch@);
    lemma_none_made_up(old(specs)@, batch@, i);
    if 0 <= i < batch@.len() {
        assert(options::holds(final(specs)@, batch@[i]@));
    }
}

/// A model that was added has been discovered.
proof fn lemma_none_made_up(specs: Seq<String>, batch: Seq<String>, i: int)
    ensures
        specs.len() <= i < options::with_discovered(specs, batch).len() ==> batch.contains(
            options::with_discovered(specs, batch)[i],
        ),
    decreases batch.len(),
{
    if batch.len() > 0 {
        let shorter = batch.drop_last();
        lemma_none_made_up(specs, shorter, i);
        let before = options::with_discovered(specs, shorter);
        let after = options::with_discovered(specs, batch);
        if specs.len() <= i < after.len() {
            if i < before.len() {
                assert(shorter.contains(after[i]));
                let k = choose|k: int| 0 <= k < shorter.len() && shorter[k] == after[i];
                assert(batch[k] == after[i]);
            } else {
                assert(batch[batch.len() - 1] == after[i]);
            }
        }
    }
}

} // verus!
