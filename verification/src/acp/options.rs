//! The options of a session, and what a client sees of them.
use vstd::prelude::*;

use crate::text::same_text;

verus! {

/// The value of a toggle that is on.
pub open spec fn enabled_value() -> Seq<char> {
    "enabled"@
}

/// The value of a toggle that is off.
pub open spec fn disabled_value() -> Seq<char> {
    "disabled"@
}

/// The value of a toggle, as text.
pub fn toggle_text(on: bool) -> (result: String)
    ensures
        result@ == (if on {
            enabled_value()
        } else {
            disabled_value()
        }),
{
    if on {
        "enabled".to_owned()
    } else {
        "disabled".to_owned()
    }
}

/// What an option is about.
#[derive(Debug, Clone, Copy, PartialEq, Eq, Structural)]
pub enum SessionOptionCategory {
    Model,
    Mode,
}

/// One of the values of an option.
#[derive(Debug, PartialEq, Eq)]
pub struct OptionValue {
    pub value: String,
    pub name: String,
}

/// An option of a session and its current value. One with a free value takes others than those it
/// lists.
#[derive(Debug, PartialEq, Eq)]
pub struct SessionOption {
    pub id: String,
    pub name: String,
    pub description: String,
    pub category: SessionOptionCategory,
    pub values: Vec<OptionValue>,
    pub free_value: bool,
    pub current_value: String,
}

/// The options of a session at one moment. A later snapshot has a greater version.
#[derive(Debug, PartialEq, Eq)]
pub struct SessionOptionsSnapshot {
    pub version: u64,
    pub options: Vec<SessionOption>,
}

/// The current value of the first option with that identity, looked for from `from` on.
pub open spec fn value_from(options: Seq<SessionOption>, id: Seq<char>, from: int) -> Option<
    Seq<char>,
>
    decreases options.len() - from,
{
    if from < 0 || from >= options.len() {
        None
    } else if options[from].id@ == id {
        Some(options[from].current_value@)
    } else {
        value_from(options, id, from + 1)
    }
}

/// The current value of an option.
pub open spec fn value_of(options: Seq<SessionOption>, id: Seq<char>) -> Option<Seq<char>> {
    value_from(options, id, 0)
}

/// The current value of an option.
pub fn current_value<'a>(options: &'a Vec<SessionOption>, id: &str) -> (result: Option<&'a str>)
    ensures
        match value_of(options@, id@) {
            Some(value) => result is Some && result->0@ == value,
            None => result is None,
        },
{
    let mut i: usize = 0;
    while i < options.len()
        invariant
            i <= options@.len(),
            value_of(options@, id@) == value_from(options@, id@, i as int),
        decreases options@.len() - i,
    {
        if same_text(options[i].id.as_str(), id) {
            return Some(options[i].current_value.as_str());
        }
        i += 1;
    }
    None
}

/// A toggle is on.
pub open spec fn is_on(options: Seq<SessionOption>, id: Seq<char>) -> bool {
    value_of(options, id) == Some(enabled_value())
}

/// Whether a toggle is on.
pub fn toggled_on(options: &Vec<SessionOption>, id: &str) -> (result: bool)
    ensures
        result == is_on(options@, id@),
{
    match current_value(options, id) {
        Some(value) => same_text(value, "enabled"),
        None => false,
    }
}

/// Some option with that identity is on.
pub open spec fn any_on(options: Seq<SessionOption>, id: Seq<char>) -> bool {
    exists|i: int|
        0 <= i < options.len() && #[trigger] options[i].id@ == id && options[i].current_value@
            == enabled_value()
}

/// Whether some option with that identity is on.
pub fn enabled(options: &Vec<SessionOption>, id: &str) -> (result: bool)
    ensures
        result == any_on(options@, id@),
{
    let mut i: usize = 0;
    while i < options.len()
        invariant
            i <= options@.len(),
            forall|j: int|
                0 <= j < i ==> !(#[trigger] options@[j].id@ == id@ && options@[j].current_value@
                    == enabled_value()),
        decreases options@.len() - i,
    {
        if same_text(options[i].id.as_str(), id) && same_text(
            options[i].current_value.as_str(),
            "enabled",
        ) {
            assert(options@[i as int].id@ == id@);
            return true;
        }
        i += 1;
    }
    false
}

/// What a client sees an option as: a switch, or a choice.
#[derive(Debug, PartialEq, Eq)]
pub enum ConfigKind {
    Boolean(bool),
    Select { current: String, values: Vec<OptionValue> },
}

/// What a client takes an option to be about.
#[derive(Debug, Clone, Copy, PartialEq, Eq, Structural)]
pub enum ConfigCategory {
    Model,
    Mode,
    ThoughtLevel,
}

/// An option as a client sees it.
#[derive(Debug, PartialEq, Eq)]
pub struct ConfigOption {
    pub id: String,
    pub name: String,
    pub description: String,
    pub category: ConfigCategory,
    pub kind: ConfigKind,
}

/// One of the values of an option is `value`.
pub open spec fn offers(values: Seq<OptionValue>, value: Seq<char>) -> bool {
    exists|i: int| 0 <= i < values.len() && #[trigger] values[i].value@ == value
}

/// An option is a toggle: it takes exactly two values, on and off.
pub open spec fn is_toggle(option: SessionOption) -> bool {
    &&& !option.free_value
    &&& option.values@.len() == 2
    &&& offers(option.values@, enabled_value())
    &&& offers(option.values@, disabled_value())
}

/// What a client takes an option to be about.
pub open spec fn shown_category(option: SessionOption) -> ConfigCategory {
    if option.id@ == "thinking"@ {
        ConfigCategory::ThoughtLevel
    } else {
        match option.category {
            SessionOptionCategory::Model => ConfigCategory::Model,
            SessionOptionCategory::Mode => ConfigCategory::Mode,
        }
    }
}

/// `shown` is what a client sees of an option: a toggle is a switch where the client knows
/// switches, and anything else is a choice among its values.
pub open spec fn shows(option: SessionOption, supports_boolean: bool, shown: ConfigOption) -> bool {
    &&& shown.id == option.id
    &&& shown.name == option.name
    &&& shown.description == option.description
    &&& shown.category == shown_category(option)
    &&& if supports_boolean && is_toggle(option) {
        shown.kind == ConfigKind::Boolean(option.current_value@ == enabled_value())
    } else {
        shown.kind matches ConfigKind::Select { current, values } && current
            == option.current_value && values@ == option.values@
    }
}

/// Whether one of the values of an option is `value`.
fn has_value(values: &Vec<OptionValue>, value: &str) -> (result: bool)
    ensures
        result == offers(values@, value@),
{
    let mut i: usize = 0;
    while i < values.len()
        invariant
            i <= values@.len(),
            forall|j: int| 0 <= j < i ==> #[trigger] values@[j].value@ != value@,
        decreases values@.len() - i,
    {
        if same_text(values[i].value.as_str(), value) {
            assert(values@[i as int].value@ == value@);
            return true;
        }
        i += 1;
    }
    false
}

/// The values of an option.
fn copied(values: &Vec<OptionValue>) -> (result: Vec<OptionValue>)
    ensures
        result@ == values@,
{
    let mut result: Vec<OptionValue> = Vec::new();
    let mut i: usize = 0;
    while i < values.len()
        invariant
            i <= values@.len(),
            result@ == values@.take(i as int),
        decreases values@.len() - i,
    {
        result.push(
            OptionValue { value: values[i].value.clone(), name: values[i].name.clone() },
        );
        assert(values@.take(i + 1) =~= values@.take(i as int).push(values@[i as int]));
        i += 1;
    }
    assert(values@.take(i as int) =~= values@);
    result
}

/// What a client sees of one option.
fn config_option(option: &SessionOption, supports_boolean: bool) -> (result: ConfigOption)
    ensures
        shows(*option, supports_boolean, result),
{
    let category = if same_text(option.id.as_str(), "thinking") {
        ConfigCategory::ThoughtLevel
    } else {
        match option.category {
            SessionOptionCategory::Model => ConfigCategory::Model,
            SessionOptionCategory::Mode => ConfigCategory::Mode,
        }
    };
    let kind = if supports_boolean && !option.free_value && option.values.len() == 2 && has_value(
        &option.values,
        "enabled",
    ) && has_value(&option.values, "disabled") {
        ConfigKind::Boolean(same_text(option.current_value.as_str(), "enabled"))
    } else {
        ConfigKind::Select {
            current: option.current_value.clone(),
            values: copied(&option.values),
        }
    };
    ConfigOption {
        id: option.id.clone(),
        name: option.name.clone(),
        description: option.description.clone(),
        category,
        kind,
    }
}

/// `shown` is what a client sees of all options, in order.
pub open spec fn shows_all(
    options: Seq<SessionOption>,
    supports_boolean: bool,
    shown: Seq<ConfigOption>,
) -> bool {
    &&& shown.len() == options.len()
    &&& forall|i: int|
        0 <= i < options.len() ==> shows(options[i], supports_boolean, #[trigger] shown[i])
}

/// What a client sees of the options of a session.
pub fn session_config_options(snapshot: &SessionOptionsSnapshot, supports_boolean: bool)
    -> (result: Vec<ConfigOption>)
    ensures
        shows_all(snapshot.options@, supports_boolean, result@),
{
    let mut result: Vec<ConfigOption> = Vec::new();
    let mut i: usize = 0;
    while i < snapshot.options.len()
        invariant
            i <= snapshot.options@.len(),
            result@.len() == i,
            forall|j: int|
                0 <= j < i ==> shows(
                    snapshot.options@[j],
                    supports_boolean,
                    #[trigger] result@[j],
                ),
        decreases snapshot.options@.len() - i,
    {
        result.push(config_option(&snapshot.options[i], supports_boolean));
        i += 1;
    }
    result
}

/// The values that a committed snapshot gives to the parts of a session that read them directly:
/// the model, if the snapshot names one, and the toggles.
#[derive(Debug, PartialEq, Eq)]
pub struct CommittedOptions {
    pub model: Option<String>,
    pub yolo: bool,
    pub fast: bool,
    pub workflow: bool,
}

/// `committed` is what a snapshot commits to.
pub open spec fn commits(options: Seq<SessionOption>, committed: CommittedOptions) -> bool {
    &&& match value_of(options, "model"@) {
        Some(spec) => committed.model is Some && committed.model->0@ == spec,
        None => committed.model is None,
    }
    &&& committed.yolo == is_on(options, "yolo"@)
    &&& committed.fast == is_on(options, "fast"@)
    &&& committed.workflow == is_on(options, "workflow"@)
}

/// A toggle that was committed is on exactly where the first option of its identity is.
pub open spec fn follows(options: Seq<SessionOption>, id: Seq<char>, on: bool) -> bool {
    &&& on ==> exists|i: int|
        0 <= i < options.len() && #[trigger] options[i].id@ == id && options[i].current_value@
            == "enabled"@
    &&& forall|i: int|
        0 <= i < options.len() && #[trigger] options[i].id@ == id && (forall|j: int|
            0 <= j < i ==> (#[trigger] options[j]).id@ != id) ==> on == (
        options[i].current_value@ == "enabled"@)
}

/// The first option with an identity decides what its value is, looked for from `from` on.
proof fn lemma_value_from(options: Seq<SessionOption>, id: Seq<char>, from: int)
    requires
        0 <= from,
    ensures
        match value_from(options, id, from) {
            Some(value) => exists|i: int|
                {
                    &&& from <= i < options.len()
                    &&& #[trigger] options[i].id@ == id
                    &&& options[i].current_value@ == value
                    &&& forall|j: int| from <= j < i ==> (#[trigger] options[j]).id@ != id
                },
            None => forall|j: int| from <= j < options.len() ==> (#[trigger] options[j]).id@ != id,
        },
    decreases options.len() - from,
{
    if from < options.len() && options[from].id@ != id {
        lemma_value_from(options, id, from + 1);
    } else if from < options.len() {
        assert(options[from].id@ == id);
    }
}

/// The first option with an identity decides whether its toggle is on.
pub proof fn lemma_follows(options: Seq<SessionOption>, id: Seq<char>)
    ensures
        follows(options, id, is_on(options, id)),
{
    lemma_value_from(options, id, 0);
}

/// What a newer snapshot brings: the values to apply, and the options to show if they are to be
/// shown.
#[derive(Debug, PartialEq, Eq)]
pub struct ProjectedOptions {
    pub committed: CommittedOptions,
    pub shown: Option<Vec<ConfigOption>>,
}

/// What the client has seen of a session's options.
#[derive(Debug)]
pub struct OptionProjection {
    pub supports_boolean: bool,
    pub emitted_version: u64,
}

/// What an update with a snapshot does: an older snapshot, or the same again, does nothing.
pub open spec fn projected(
    version: u64,
    supports_boolean: bool,
    snapshot: SessionOptionsSnapshot,
    emit: bool,
    result: Option<ProjectedOptions>,
    version_after: u64,
) -> bool {
    if snapshot.version <= version {
        result is None && version_after == version
    } else {
        &&& version_after == snapshot.version
        &&& result is Some
        &&& commits(snapshot.options@, result->0.committed)
        &&& if emit {
            result->0.shown is Some && shows_all(
                snapshot.options@,
                supports_boolean,
                result->0.shown->0@,
            )
        } else {
            result->0.shown is None
        }
    }
}

impl OptionProjection {
    /// Takes a snapshot without showing it.
    pub fn apply(&mut self, snapshot: &SessionOptionsSnapshot) -> (result: Option<
        ProjectedOptions,
    >)
        ensures
            projected(
                old(self).emitted_version,
                old(self).supports_boolean,
                *snapshot,
                false,
                result,
                final(self).emitted_version,
            ),
            final(self).supports_boolean == old(self).supports_boolean,
            result matches Some(brought) ==> {
                &&& follows(snapshot.options@, "yolo"@, brought.committed.yolo)
                &&& follows(snapshot.options@, "fast"@, brought.committed.fast)
                &&& follows(snapshot.options@, "workflow"@, brought.committed.workflow)
            },
    {
        self.update(snapshot, false)
    }

    /// Takes a snapshot and shows it.
    pub fn emit(&mut self, snapshot: &SessionOptionsSnapshot) -> (result: Option<ProjectedOptions>)
        ensures
            projected(
                old(self).emitted_version,
                old(self).supports_boolean,
                *snapshot,
                true,
                result,
                final(self).emitted_version,
            ),
            final(self).supports_boolean == old(self).supports_boolean,
            result matches Some(brought) ==> {
                &&& follows(snapshot.options@, "yolo"@, brought.committed.yolo)
                &&& follows(snapshot.options@, "fast"@, brought.committed.fast)
                &&& follows(snapshot.options@, "workflow"@, brought.committed.workflow)
            },
    {
        self.update(snapshot, true)
    }

    /// Takes a snapshot, if it is newer than what was taken before.
    pub fn update(&mut self, snapshot: &SessionOptionsSnapshot, emit: bool) -> (result: Option<
        ProjectedOptions,
    >)
        ensures
            projected(
                old(self).emitted_version,
                old(self).supports_boolean,
                *snapshot,
                emit,
                result,
                final(self).emitted_version,
            ),
            final(self).supports_boolean == old(self).supports_boolean,
            result matches Some(brought) ==> {
                &&& follows(snapshot.options@, "yolo"@, brought.committed.yolo)
                &&& follows(snapshot.options@, "fast"@, brought.committed.fast)
                &&& follows(snapshot.options@, "workflow"@, brought.committed.workflow)
            },
    {
        if snapshot.version <= self.emitted_version {
            return None;
        }
        let committed = Self::apply_committed_options(snapshot);
        let shown = if emit {
            Some(session_config_options(snapshot, self.supports_boolean))
        } else {
            None
        };
        self.emitted_version = snapshot.version;
        Some(ProjectedOptions { committed, shown })
    }

    /// The values that a snapshot commits to.
    pub fn apply_committed_options(snapshot: &SessionOptionsSnapshot) -> (result: CommittedOptions)
        ensures
            commits(snapshot.options@, result),
            follows(snapshot.options@, "yolo"@, result.yolo),
            follows(snapshot.options@, "fast"@, result.fast),
            follows(snapshot.options@, "workflow"@, result.workflow),
    {
        proof {
            lemma_follows(snapshot.options@, "yolo"@);
            lemma_follows(snapshot.options@, "fast"@);
            lemma_follows(snapshot.options@, "workflow"@);
        }
        let model = match current_value(&snapshot.options, "model") {
            Some(spec) => Some(spec.to_owned()),
            None => None,
        };
        CommittedOptions {
            model,
            yolo: toggled_on(&snapshot.options, "yolo"),
            fast: toggled_on(&snapshot.options, "fast"),
            workflow: toggled_on(&snapshot.options, "workflow"),
        }
    }
}

/// Taking a snapshot a second time does nothing, and neither does taking an older one: what the
/// client sees never goes back.
pub proof fn law_projection_never_goes_back(
    version: u64,
    supports_boolean: bool,
    first: SessionOptionsSnapshot,
    emit: bool,
    result: Option<ProjectedOptions>,
    between: u64,
    second: SessionOptionsSnapshot,
    emit_again: bool,
    again: Option<ProjectedOptions>,
    after: u64,
)
    requires
        projected(version, supports_boolean, first, emit, result, between),
        projected(between, supports_boolean, second, emit_again, again, after),
        second.version <= first.version,
    ensures
        again is None,
        after == between,
        version <= between,
{
}

/// A list of texts holds a text.
pub open spec fn holds(texts: Seq<String>, text: Seq<char>) -> bool {
    exists|i: int| 0 <= i < texts.len() && #[trigger] texts[i]@ == text
}

/// Whether a list of texts holds a text.
pub fn contains_text(texts: &Vec<String>, text: &str) -> (result: bool)
    ensures
        result == holds(texts@, text@),
{
    let mut i: usize = 0;
    while i < texts.len()
        invariant
            i <= texts@.len(),
            forall|j: int| 0 <= j < i ==> #[trigger] texts@[j]@ != text@,
        decreases texts@.len() - i,
    {
        if same_text(texts[i].as_str(), text) {
            assert(texts@[i as int]@ == text@);
            return true;
        }
        i += 1;
    }
    false
}

/// The known models once a batch has been discovered: each that was not known is added, in order.
pub open spec fn with_discovered(specs: Seq<String>, batch: Seq<String>) -> Seq<String>
    decreases batch.len(),
{
    if batch.len() == 0 {
        specs
    } else {
        let before = with_discovered(specs, batch.drop_last());
        if holds(before, batch.last()@) {
            before
        } else {
            before.push(batch.last())
        }
    }
}

/// Adds a batch of discovered models to the known ones; says whether there was a new one.
pub fn refresh_models(specs: &mut Vec<String>, batch: Vec<String>) -> (result: bool)
    ensures
        final(specs)@ == with_discovered(old(specs)@, batch@),
        result == (with_discovered(old(specs)@, batch@).len() > old(specs)@.len()),
{
    let before: usize = specs.len();
    let mut i: usize = 0;
    assert(batch@.take(0) =~= Seq::empty());
    while i < batch.len()
        invariant
            i <= batch@.len(),
            before == old(specs)@.len(),
            specs@ == with_discovered(old(specs)@, batch@.take(i as int)),
            specs@.len() >= before,
        decreases batch@.len() - i,
    {
        assert(batch@.take(i + 1).drop_last() =~= batch@.take(i as int));
        assert(batch@.take(i + 1).last() == batch@[i as int]);
        if !contains_text(specs, batch[i].as_str()) {
            specs.push(batch[i].clone());
        }
        i += 1;
    }
    assert(batch@.take(i as int) =~= batch@);
    specs.len() > before
}

/// Discovering models keeps the known ones in their places, knows every discovered one afterwards,
/// and adds none twice.
pub proof fn law_discovery_adds_each_model_once(specs: Seq<String>, batch: Seq<String>)
    ensures
        ({
            let after = with_discovered(specs, batch);
            &&& specs.len() <= after.len()
            &&& after.take(specs.len() as int) == specs
            &&& forall|i: int| 0 <= i < batch.len() ==> holds(after, #[trigger] batch[i]@)
            &&& forall|i: int, j: int|
                0 <= i < j < after.len() && specs.len() <= j ==> (#[trigger] after[i])@ != (
                #[trigger] after[j])@
        }),
    decreases batch.len(),
{
    if batch.len() > 0 {
        let shorter = batch.drop_last();
        law_discovery_adds_each_model_once(specs, shorter);
        let before = with_discovered(specs, shorter);
        let after = with_discovered(specs, batch);
        assert(after.take(specs.len() as int) =~= specs) by {
            assert(before.take(specs.len() as int) == specs);
            assert forall|k: int| 0 <= k < specs.len() implies after[k] == specs[k] by {
                assert(before.take(specs.len() as int)[k] == before[k]);
            }
        }
        assert forall|i: int| 0 <= i < batch.len() implies holds(after, #[trigger] batch[i]@) by {
            if i < shorter.len() {
                assert(shorter[i] == batch[i]);
                let k = choose|k: int| 0 <= k < before.len() && #[trigger] before[k]@ == batch[i]@;
                assert(after[k]@ == batch[i]@);
            } else if !holds(before, batch.last()@) {
                assert(after[before.len() as int]@ == batch[i]@);
            }
        }
        assert forall|i: int, j: int|
            0 <= i < j < after.len() && specs.len() <= j implies (#[trigger] after[i])@ != (
        #[trigger] after[j])@ by {
            if j < before.len() {
                assert(before[i] == after[i] && before[j] == after[j]);
            } else {
                assert(before[i] == after[i]);
            }
        }
    } else {
        assert(specs.take(specs.len() as int) =~= specs);
    }
}

} // verus!
