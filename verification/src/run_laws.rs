//! What holds of a run from its beginning to its end.
use crate::error::GenerationError;
use crate::generation::{Action, Event, GenerationModel, Stage, TestSide};
use crate::generator::{kind_outcome, GeneratorModel};
use crate::items::{FfiItemsModel, ItemKind};
use crate::laws::is_run;
use crate::outside::{joined_path, path_with_extension, syntax_tree};
use crate::rule_laws::takes_everything;
use crate::skipping::texts;
use std::path::PathBuf;
use vstd::prelude::*;

verus! {

/// Something outside has failed: the expansion, the parser, a template, or the file system.
pub open spec fn failed(event: Event) -> bool {
    match event {
        Event::Expanded(Ok(source)) => syntax_tree(source@) is Err,
        Event::Expanded(Err(_)) => true,
        Event::Created(Err(_)) => true,
        Event::Rendered(Err(_)) => true,
        Event::Written(Err(_)) => true,
        _ => false,
    }
}

/// A run fails only where the outside fails, and always there.
pub proof fn run_fails_only_where_the_outside_fails(
    generator: GeneratorModel,
    run: GenerationModel,
    event: Event,
    after: GenerationModel,
    action: Action,
)
    requires
        run.expects(generator, event),
        run.steps(generator, event, after, action),
    ensures
        (action matches Action::Finish(Err(_))) <==> failed(event),
{
}

/// A run that fails tells why, in the words of what failed.
pub proof fn failure_is_passed_on(
    generator: GeneratorModel,
    run: GenerationModel,
    event: Event,
    after: GenerationModel,
    action: Action,
)
    requires
        run.expects(generator, event),
        run.steps(generator, event, after, action),
    ensures
        event matches Event::Expanded(Err(reason)) ==> action == Action::Finish(
            Err(GenerationError::MacroExpansion(run.crate_path, reason)),
        ),
        event matches Event::Expanded(Ok(source)) ==> (syntax_tree(source@) matches Err(reason)
            ==> (action matches Action::Finish(Err(GenerationError::RustSyntax(text, message)))
            && text == source && message@ == reason)),
        event matches Event::Created(Err(error)) ==> action == Action::Finish(
            Err(GenerationError::OsError(error)),
        ),
        event matches Event::Rendered(Err(reason)) ==> (action matches Action::Finish(
            Err(GenerationError::TemplateRender(template, message)),
        ) && message == reason && (run.stage == Stage::Rendering(TestSide::Rust) ==> template@
            == "Rust"@) && (run.stage == Stage::Rendering(TestSide::C) ==> template@ == "C"@)),
        event matches Event::Written(Err(error)) ==> action == Action::Finish(
            Err(GenerationError::OsError(error)),
        ),
{
}

/// A run takes no event after a failure: only the last one can tell of any, and the run then ends
/// with an error.
pub proof fn run_ends_with_its_first_failure(
    generator: GeneratorModel,
    crate_path: PathBuf,
    file_path: PathBuf,
    states: Seq<GenerationModel>,
    events: Seq<Event>,
    actions: Seq<Action>,
)
    requires
        is_run(generator, crate_path, file_path, states, events, actions),
    ensures
        forall|i: int| 0 <= i < events.len() - 1 ==> !failed(#[trigger] events[i]),
        (actions.last() matches Action::Finish(Err(_))) <==> events.len() > 0 && failed(
            events.last(),
        ),
{
    assert forall|i: int| 0 <= i < events.len() - 1 implies !failed(#[trigger] events[i]) by {
        assert(states[i].expects(generator, events[i]));
        assert(states[i + 1].expects(generator, events[i + 1]));
    }
    if events.len() > 0 {
        let n = events.len() - 1;
        assert(states[n].expects(generator, events[n]));
        run_fails_only_where_the_outside_fails(
            generator,
            states[n],
            events[n],
            states[n + 1],
            actions[n + 1],
        );
    }
}

/// `action` reports the items of one kind that are skipped: of `before`, `after` is left.
pub open spec fn reports_kind(
    generator: GeneratorModel,
    before: FfiItemsModel,
    kind: ItemKind,
    after: FfiItemsModel,
    action: Action,
) -> bool {
    action matches Action::Report(lines) && exists|marks: Seq<bool>| #[trigger]
        kind_outcome(generator, before, kind, marks, after, texts(lines@))
}

/// The directory of the output files: the one that is configured, or the one that was found.
pub open spec fn directory(generator: GeneratorModel, events: Seq<Event>) -> PathBuf {
    match generator.out_dir {
        Some(directory) => directory,
        None => events[7]->OutDirFound_0,
    }
}

/// How many events come before the first file is created.
pub open spec fn preparations(generator: GeneratorModel) -> int {
    if generator.out_dir is Some {
        7
    } else {
        8
    }
}

/// Where nothing fails, a run expands the crate and collects its items, then filters and reports
/// aliases, constants, structs, functions and statics, in this order. Nothing is filtered twice,
/// and nothing afterwards. Each action follows as soon as the one before it is done.
pub proof fn unfailing_run_filters_each_kind(
    generator: GeneratorModel,
    crate_path: PathBuf,
    file_path: PathBuf,
    states: Seq<GenerationModel>,
    events: Seq<Event>,
    actions: Seq<Action>,
)
    requires
        is_run(generator, crate_path, file_path, states, events, actions),
        forall|i: int| 0 <= i < events.len() ==> !failed(#[trigger] events[i]),
    ensures
        actions[0] == Action::Expand(crate_path),
        events.len() >= 1 ==> (events[0] matches Event::Expanded(Ok(source)) && (syntax_tree(
            source@,
        ) matches Ok(tree) && actions[1] == Action::Collect(tree))),
        events.len() >= 2 ==> (events[1] matches Event::Collected(found) && reports_kind(
            generator,
            found@,
            ItemKind::Alias,
            states[2].ffi_items,
            actions[2],
        )),
        events.len() >= 3 ==> events[2] is Reported && reports_kind(
            generator,
            states[2].ffi_items,
            ItemKind::Const,
            states[3].ffi_items,
            actions[3],
        ),
        events.len() >= 4 ==> events[3] is Reported && reports_kind(
            generator,
            states[3].ffi_items,
            ItemKind::Struct,
            states[4].ffi_items,
            actions[4],
        ),
        events.len() >= 5 ==> events[4] is Reported && reports_kind(
            generator,
            states[4].ffi_items,
            ItemKind::Fn,
            states[5].ffi_items,
            actions[5],
        ),
        events.len() >= 6 ==> events[5] is Reported && reports_kind(
            generator,
            states[5].ffi_items,
            ItemKind::Static,
            states[6].ffi_items,
            actions[6],
        ),
        forall|i: int|
            6 <= i <= events.len() ==> (#[trigger] states[i]).ffi_items == states[6].ffi_items,
{
    stages_of_an_unfailing_run(generator, crate_path, file_path, states, events, actions);
    let n = events.len();
    if n >= 1 {
        assert(states[0].expects(generator, events[0]));
    }
    if n >= 2 {
        assert(states[1].expects(generator, events[1]));
    }
    if n >= 3 {
        assert(states[2].expects(generator, events[2]));
    }
    if n >= 4 {
        assert(states[3].expects(generator, events[3]));
    }
    if n >= 5 {
        assert(states[4].expects(generator, events[4]));
    }
    if n >= 6 {
        assert(states[5].expects(generator, events[5]));
        assert forall|i: int| 6 <= i <= n implies (#[trigger] states[i]).ffi_items
            == states[6].ffi_items by {
            items_stay(generator, crate_path, file_path, states, events, actions, i);
        }
    }
}

/// Where nothing fails, a run makes the Rust file and then the C file: it creates the file, renders
/// the text and writes what was rendered. Both files lie in the configured directory, or in the
/// one that was found where none is configured. Then the run ends with their path, and not before.
pub proof fn unfailing_run_makes_both_files(
    generator: GeneratorModel,
    crate_path: PathBuf,
    file_path: PathBuf,
    states: Seq<GenerationModel>,
    events: Seq<Event>,
    actions: Seq<Action>,
)
    requires
        is_run(generator, crate_path, file_path, states, events, actions),
        forall|i: int| 0 <= i < events.len() ==> !failed(#[trigger] events[i]),
    ensures
        ({
            let n = events.len();
            let at = preparations(generator);
            let output = joined_path(directory(generator, events), file_path);
            &&& n <= at + 6
            &&& n < at + 6 <==> !(actions.last() is Finish)
            &&& generator.out_dir is None && n >= 7 ==> actions[7] is FindOutDir
            &&& generator.out_dir is None && n >= 8 ==> events[7] is OutDirFound
            &&& n >= at ==> actions[at] == Action::Create(path_with_extension(output, "rs"@))
            &&& n >= at + 1 ==> (events[at] matches Event::Created(Ok(_))) && actions[at + 1]
                == Action::Render(TestSide::Rust)
            &&& n >= at + 2 ==> (events[at + 1] matches Event::Rendered(Ok(text)) && actions[at + 2]
                == Action::Write(text))
            &&& n >= at + 3 ==> (events[at + 2] matches Event::Written(Ok(_))) && actions[at + 3]
                == Action::Create(path_with_extension(output, "c"@))
            &&& n >= at + 4 ==> (events[at + 3] matches Event::Created(Ok(_))) && actions[at + 4]
                == Action::Render(TestSide::C)
            &&& n >= at + 5 ==> (events[at + 4] matches Event::Rendered(Ok(text)) && actions[at + 5]
                == Action::Write(text))
            &&& n >= at + 6 ==> (events[at + 5] matches Event::Written(Ok(_))) && actions[at + 6]
                == Action::Finish(Ok(output))
        }),
{
    stages_of_an_unfailing_run(generator, crate_path, file_path, states, events, actions);
    let n = events.len();
    let at = preparations(generator);
    if n >= 1 {
        assert(states[n - 1].expects(generator, events[n - 1]));
    }
    if n >= 7 {
        assert(states[6].expects(generator, events[6]));
        paths_stay(generator, crate_path, file_path, states, events, actions, 6);
    }
    if generator.out_dir is None && n >= 8 {
        assert(states[7].expects(generator, events[7]));
        paths_stay(generator, crate_path, file_path, states, events, actions, 7);
    }
    if n >= at + 1 {
        assert(states[at].expects(generator, events[at]));
    }
    if n >= at + 2 {
        assert(states[at + 1].expects(generator, events[at + 1]));
    }
    if n >= at + 3 {
        assert(states[at + 2].expects(generator, events[at + 2]));
    }
    if n >= at + 4 {
        assert(states[at + 3].expects(generator, events[at + 3]));
    }
    if n >= at + 5 {
        assert(states[at + 4].expects(generator, events[at + 4]));
    }
    if n >= at + 6 {
        assert(states[at + 5].expects(generator, events[at + 5]));
    }
}

/// The stage after `n` events of a run in which nothing fails.
spec fn stage_after(generator: GeneratorModel, n: int) -> Stage {
    let at = preparations(generator);
    if n == 0 {
        Stage::Expanding
    } else if n == 1 {
        Stage::Collecting
    } else if n == 2 {
        Stage::Reporting(ItemKind::Alias)
    } else if n == 3 {
        Stage::Reporting(ItemKind::Const)
    } else if n == 4 {
        Stage::Reporting(ItemKind::Struct)
    } else if n == 5 {
        Stage::Reporting(ItemKind::Fn)
    } else if n == 6 {
        Stage::Reporting(ItemKind::Static)
    } else if n < at {
        Stage::Locating
    } else if n == at {
        Stage::Creating(TestSide::Rust)
    } else if n == at + 1 {
        Stage::Rendering(TestSide::Rust)
    } else if n == at + 2 {
        Stage::Writing(TestSide::Rust)
    } else if n == at + 3 {
        Stage::Creating(TestSide::C)
    } else if n == at + 4 {
        Stage::Rendering(TestSide::C)
    } else if n == at + 5 {
        Stage::Writing(TestSide::C)
    } else {
        Stage::Finished
    }
}

proof fn stages_of_an_unfailing_run(
    generator: GeneratorModel,
    crate_path: PathBuf,
    file_path: PathBuf,
    states: Seq<GenerationModel>,
    events: Seq<Event>,
    actions: Seq<Action>,
)
    requires
        is_run(generator, crate_path, file_path, states, events, actions),
        forall|i: int| 0 <= i < events.len() ==> !failed(#[trigger] events[i]),
    ensures
        forall|i: int|
            0 <= i <= events.len() ==> (#[trigger] states[i]).stage == stage_after(generator, i),
        events.len() <= preparations(generator) + 6,
{
    assert forall|i: int| 0 <= i <= events.len() implies (#[trigger] states[i]).stage
        == stage_after(generator, i) by {
        stage_of_an_unfailing_run(generator, crate_path, file_path, states, events, actions, i);
    }
    let end = preparations(generator) + 6;
    if events.len() > end {
        assert(states[end].expects(generator, events[end]));
    }
}

proof fn stage_of_an_unfailing_run(
    generator: GeneratorModel,
    crate_path: PathBuf,
    file_path: PathBuf,
    states: Seq<GenerationModel>,
    events: Seq<Event>,
    actions: Seq<Action>,
    i: int,
)
    requires
        is_run(generator, crate_path, file_path, states, events, actions),
        forall|i: int| 0 <= i < events.len() ==> !failed(#[trigger] events[i]),
        0 <= i <= events.len(),
    ensures
        states[i].stage == stage_after(generator, i),
    decreases i,
{
    if i > 0 {
        stage_of_an_unfailing_run(
            generator,
            crate_path,
            file_path,
            states,
            events,
            actions,
            i - 1,
        );
        assert(!failed(events[i - 1]));
        assert(states[i - 1].expects(generator, events[i - 1]));
        assert(states[i - 1].steps(generator, events[i - 1], states[i], actions[i]));
    }
}

proof fn items_stay(
    generator: GeneratorModel,
    crate_path: PathBuf,
    file_path: PathBuf,
    states: Seq<GenerationModel>,
    events: Seq<Event>,
    actions: Seq<Action>,
    i: int,
)
    requires
        is_run(generator, crate_path, file_path, states, events, actions),
        forall|i: int|
            0 <= i <= events.len() ==> (#[trigger] states[i]).stage == stage_after(generator, i),
        6 <= i <= events.len(),
    ensures
        states[i].ffi_items == states[6].ffi_items,
    decreases i,
{
    if i > 6 {
        items_stay(generator, crate_path, file_path, states, events, actions, i - 1);
        assert(states[i - 1].stage == stage_after(generator, i - 1));
        assert(states[i - 1].expects(generator, events[i - 1]));
    }
}

proof fn paths_stay(
    generator: GeneratorModel,
    crate_path: PathBuf,
    file_path: PathBuf,
    states: Seq<GenerationModel>,
    events: Seq<Event>,
    actions: Seq<Action>,
    i: int,
)
    requires
        is_run(generator, crate_path, file_path, states, events, actions),
        0 <= i <= events.len(),
    ensures
        states[i].crate_path == crate_path,
        states[i].file_path == file_path,
    decreases i,
{
    if i > 0 {
        paths_stay(generator, crate_path, file_path, states, events, actions, i - 1);
        assert(states[i - 1].expects(generator, events[i - 1]));
    }
}

/// A crate that cannot be expanded is named in the error by the path that the run was asked for.
pub proof fn failed_expansion_names_the_crate(
    generator: GeneratorModel,
    crate_path: PathBuf,
    file_path: PathBuf,
    states: Seq<GenerationModel>,
    events: Seq<Event>,
    actions: Seq<Action>,
    reason: String,
)
    requires
        is_run(generator, crate_path, file_path, states, events, actions),
        events.len() > 0,
        events.last() == Event::Expanded(Err(reason)),
    ensures
        actions.last() == Action::Finish(
            Err(GenerationError::MacroExpansion(crate_path, reason)),
        ),
{
    let n = events.len() - 1;
    assert(states[n].expects(generator, events[n]));
    paths_stay(generator, crate_path, file_path, states, events, actions, n);
}

/// `event` tells the outcome of `action`.
pub open spec fn answers(action: Action, event: Event) -> bool {
    match action {
        Action::Expand(_) => event is Expanded,
        Action::Collect(_) => event is Collected,
        Action::Report(_) => event is Reported,
        Action::FindOutDir => event is OutDirFound,
        Action::Create(_) => event is Created,
        Action::Render(_) => event is Rendered,
        Action::Write(_) => event is Written,
        Action::Finish(_) => false,
    }
}

/// A run takes the outcome of the action that it asked for, and nothing else. Where the skip rules
/// can be asked about everything, it takes every such outcome.
pub proof fn every_outcome_is_taken(
    generator: GeneratorModel,
    crate_path: PathBuf,
    file_path: PathBuf,
    states: Seq<GenerationModel>,
    events: Seq<Event>,
    actions: Seq<Action>,
    event: Event,
)
    requires
        is_run(generator, crate_path, file_path, states, events, actions),
    ensures
        states.last().well_formed(),
        states.last().expects(generator, event) ==> answers(actions.last(), event),
        answers(actions.last(), event) && takes_everything(generator.skips)
            ==> states.last().expects(generator, event),
{
    let n = events.len() as int;
    stays_well_formed(generator, crate_path, file_path, states, events, actions, n);
    if n > 0 {
        assert(states[n - 1].expects(generator, events[n - 1]));
    }
}

proof fn stays_well_formed(
    generator: GeneratorModel,
    crate_path: PathBuf,
    file_path: PathBuf,
    states: Seq<GenerationModel>,
    events: Seq<Event>,
    actions: Seq<Action>,
    i: int,
)
    requires
        is_run(generator, crate_path, file_path, states, events, actions),
        0 <= i <= events.len(),
    ensures
        states[i].well_formed(),
    decreases i,
{
    if i > 0 {
        stays_well_formed(generator, crate_path, file_path, states, events, actions, i - 1);
        assert(states[i - 1].expects(generator, events[i - 1]));
    }
}

/// To change the stage of a run changes nothing else of it, and so it is with a failure.
pub proof fn stages_change_nothing_else(
    run: GenerationModel,
    stage: Stage,
    error: GenerationError,
    after: GenerationModel,
    action: Action,
)
    ensures
        run.at(stage).stage == stage,
        run.at(stage).crate_path == run.crate_path,
        run.at(stage).file_path == run.file_path,
        run.at(stage).output == run.output,
        run.at(stage).ffi_items == run.ffi_items,
        run.fails(error, after, action) <==> {
            &&& after.stage is Finished
            &&& after.crate_path == run.crate_path
            &&& after.file_path == run.file_path
            &&& after.output == run.output
            &&& after.ffi_items == run.ffi_items
            &&& action == Action::Finish(Err(error))
        },
{
}

/// The two sides are told apart by their words in errors and by the extensions of their files.
pub proof fn sides_have_their_words()
    ensures
        TestSide::Rust.template() == "Rust"@,
        TestSide::C.template() == "C"@,
        TestSide::Rust.file_extension() == "rs"@,
        TestSide::C.file_extension() == "c"@,
{
}

/// From aliases on, each kind of item has its turn once: constants, structs, functions and statics
/// follow, and nothing follows statics. In reports each kind has its own word.
pub proof fn kinds_have_their_turn_and_word()
    ensures
        ItemKind::Alias.successor() == Some(ItemKind::Const),
        ItemKind::Const.successor() == Some(ItemKind::Struct),
        ItemKind::Struct.successor() == Some(ItemKind::Fn),
        ItemKind::Fn.successor() == Some(ItemKind::Static),
        ItemKind::Static.successor() is None,
        ItemKind::Alias.word() == "alias"@,
        ItemKind::Const.word() == "const"@,
        ItemKind::Struct.word() == "struct"@,
        ItemKind::Fn.word() == "fn"@,
        ItemKind::Static.word() == "static"@,
{
}

} // verus!
