//! Validates commands, applies them to a runtime, and keeps the undo/redo
//! history.

use vstd::prelude::*;

use crate::commands::command::{
    command_name_str, payload_name, CommandEnvelope, CommandName, CommandPayload, CommandResult,
};
use crate::commands::error::CommandError;
use crate::commands::history::{appended_within, CommandHistory, UndoRecord, DEFAULT_HISTORY_CAPACITY};
use crate::commands::runtime::CommandRuntime;
use crate::commands::validation::{first_error_message_of, ValidationResult};
use crate::text::{concat, owned};

verus! {

#[derive(Debug, Clone)]
pub struct CommandRouter<S> {
    history: CommandHistory<S>,
}

/// Message of the validation error for an envelope whose name does not
/// match its payload.
pub open spec fn mismatch_message(name: CommandName, payload: CommandName) -> Seq<char> {
    "command name "@ + command_name_str(name) + " does not match payload "@ + command_name_str(payload)
}

/// The message a failed validation is reported with.
pub open spec fn validation_failure_text(v: ValidationResult) -> Seq<char> {
    match first_error_message_of(v.warnings@) {
        Some(m) => m,
        None => "command is invalid"@,
    }
}

/// Whether `e` is a validation error with message `m`.
pub open spec fn is_validation_error(e: CommandError, m: Seq<char>) -> bool {
    e matches CommandError::Validation(s) && s@ == m
}

/// Whether `r` failed validation with message `m`.
pub open spec fn fails_validation<T>(r: Result<T, CommandError>, m: Seq<char>) -> bool {
    match r {
        Err(e) => is_validation_error(e, m),
        Ok(_) => false,
    }
}

/// Whether `r` failed as unsupported with message `m`.
pub open spec fn fails_unsupported<T>(r: Result<T, CommandError>, m: Seq<char>) -> bool {
    match r {
        Err(CommandError::Unsupported(s)) => s@ == m,
        _ => false,
    }
}

/// Whether `res` reports `command` as executed (not a dry run).
pub open spec fn reports_execution(res: CommandResult, command: CommandEnvelope) -> bool {
    &&& res.command_id@ == command.id@
    &&& res.command_name == command.name
    &&& res.executed
    &&& !res.dry_run
}

/// Message of the error for an external record under another name.
pub open spec fn external_record_message(name: CommandName) -> Seq<char> {
    "external records must use "@ + command_name_str(CommandName::LegacyUndoable) + ", got "@
        + command_name_str(name)
}

/// Payloads that change the runtime and are recorded for undo.
pub open spec fn is_recorded_payload(p: CommandPayload) -> bool {
    match p {
        CommandPayload::HistoryUndo | CommandPayload::HistoryRedo | CommandPayload::EditorSetMode(_)
        | CommandPayload::LegacyUndoable { .. } => false,
        _ => true,
    }
}

/// `r` follows the runtime's answer `a`: `Ok` exactly when `a` is, and
/// `a`'s error when it is not.
pub open spec fn follows<T>(r: Result<T, CommandError>, a: Result<(), CommandError>) -> bool {
    &&& a is Ok ==> r is Ok
    &&& a matches Err(e) ==> r == Err::<T, CommandError>(e)
}

/// Payloads whose validity the runtime's own validator decides.
pub open spec fn is_runtime_validated(p: CommandPayload) -> bool {
    match p {
        CommandPayload::SelectionClear(_) | CommandPayload::LegacyUndoable { .. } | CommandPayload::HistoryUndo
        | CommandPayload::HistoryRedo => false,
        _ => true,
    }
}

/// Two histories hold the same records under the same bound.
pub open spec fn same_history<S>(a: CommandHistory<S>, b: CommandHistory<S>) -> bool {
    &&& a.done_records() == b.done_records()
    &&& a.undone_records() == b.undone_records()
    &&& a.capacity() == b.capacity()
}

/// Turn a validation outcome into the error a command fails with.
pub fn check_validation(validation: &ValidationResult) -> (r: Result<(), CommandError>)
    ensures
        validation.valid ==> r is Ok,
        !validation.valid ==> fails_validation(r, validation_failure_text(*validation)),
{
    if validation.valid {
        Ok(())
    } else {
        match validation.first_error_message() {
            Some(m) => Err(CommandError::Validation(m)),
            None => Err(CommandError::Validation(owned("command is invalid"))),
        }
    }
}

fn mismatch_text(name: CommandName, payload: CommandName) -> (s: String)
    ensures
        s@ == mismatch_message(name, payload),
{
    let a = concat("command name ", name.as_str());
    let b = concat(a.as_str(), " does not match payload ");
    concat(b.as_str(), payload.as_str())
}

impl<S> Default for CommandRouter<S> {
    fn default() -> (r: CommandRouter<S>)
        ensures
            r.wf(),
            r.history().done_records() == Seq::<UndoRecord<S>>::empty(),
            r.history().undone_records() == Seq::<UndoRecord<S>>::empty(),
            r.history().capacity() == DEFAULT_HISTORY_CAPACITY,
    {
        CommandRouter { history: CommandHistory::default() }
    }
}

impl<S> CommandRouter<S> {
    pub closed spec fn history(&self) -> CommandHistory<S> {
        self.history
    }

    pub open spec fn wf(&self) -> bool {
        self.history().wf()
    }

    /// The outcome of undoing: on an empty history nothing changes and
    /// the error is `NothingToUndo`; otherwise the newest record is taken,
    /// its `before` state is restored, and the undo succeeds exactly when
    /// the restore does (failing with the restore's error otherwise); on
    /// success the record becomes redoable.
    pub open spec fn undo_outcome<R: CommandRuntime<Snapshot = S>>(
        old_h: CommandHistory<S>,
        new_h: CommandHistory<S>,
        old_rt: R,
        new_rt: R,
        command: CommandEnvelope,
        r: Result<CommandResult, CommandError>,
    ) -> bool {
        &&& new_h.capacity() == old_h.capacity()
        &&& old_h.done_records().len() == 0 ==> {
            &&& r matches Err(CommandError::NothingToUndo)
            &&& same_history(old_h, new_h)
            &&& new_rt == old_rt
        }
        &&& old_h.done_records().len() > 0 ==> {
            let rec = old_h.done_records().last();
            &&& follows(r, old_rt.restore_outcome(rec.before))
            &&& new_h.done_records() == old_h.done_records().drop_last()
            &&& r matches Ok(res) ==> {
                &&& res.reports(command, true, false, "undo complete"@)
                &&& new_rt.state() == rec.before
                &&& new_h.undone_records() == old_h.undone_records().push(rec)
            }
            &&& r is Err ==> new_h.undone_records() == old_h.undone_records()
        }
    }

    /// The outcome of redoing, mirroring [`Self::undo_outcome`]: the redo
    /// succeeds exactly when restoring the record's `after` state does, and
    /// the record then becomes undoable again.
    pub open spec fn redo_outcome<R: CommandRuntime<Snapshot = S>>(
        old_h: CommandHistory<S>,
        new_h: CommandHistory<S>,
        old_rt: R,
        new_rt: R,
        command: CommandEnvelope,
        r: Result<CommandResult, CommandError>,
    ) -> bool {
        &&& new_h.capacity() == old_h.capacity()
        &&& old_h.undone_records().len() == 0 ==> {
            &&& r matches Err(CommandError::NothingToRedo)
            &&& same_history(old_h, new_h)
            &&& new_rt == old_rt
        }
        &&& old_h.undone_records().len() > 0 ==> {
            let rec = old_h.undone_records().last();
            &&& follows(r, old_rt.restore_outcome(rec.after))
            &&& new_h.undone_records() == old_h.undone_records().drop_last()
            &&& r matches Ok(res) ==> {
                &&& res.reports(command, true, false, "redo complete"@)
                &&& new_rt.state() == rec.after
                &&& new_h.done_records() == appended_within(old_h.done_records(), rec, old_h.capacity())
            }
            &&& r is Err ==> new_h.done_records() == old_h.done_records()
        }
    }

    /// The outcome of a recorded command that succeeded: it is reported as
    /// executed, and a record holding the states before and after is
    /// appended to the undo stack while the redo stack is emptied.
    pub open spec fn recorded_outcome<R: CommandRuntime<Snapshot = S>>(
        old_h: CommandHistory<S>,
        new_h: CommandHistory<S>,
        old_rt: R,
        new_rt: R,
        command: CommandEnvelope,
        r: Result<CommandResult, CommandError>,
    ) -> bool {
        r matches Ok(res) ==> {
            &&& res.reports(command, true, false, "command executed"@)
            &&& new_h.capacity() == old_h.capacity()
            &&& new_h.undone_records() == Seq::<UndoRecord<S>>::empty()
            &&& new_h.done_records() == appended_within(
                old_h.done_records(),
                UndoRecord { command, before: old_rt.state(), after: new_rt.state() },
                old_h.capacity(),
            )
        }
    }

    /// What one [`Self::execute`] of `command` does: from history `h0` and
    /// runtime `rt0` to `h1` and `rt1`, answering `r`.
    pub open spec fn execute_outcome<R: CommandRuntime<Snapshot = S>>(
        h0: CommandHistory<S>,
        h1: CommandHistory<S>,
        rt0: R,
        rt1: R,
        command: CommandEnvelope,
        r: Result<CommandResult, CommandError>,
    ) -> bool {
        &&& h1.wf()
        &&& command.payload is HistoryUndo ==> Self::undo_outcome(h0, h1, rt0, rt1, command, r)
        &&& command.payload is HistoryRedo ==> Self::redo_outcome(h0, h1, rt0, rt1, command, r)
        &&& !(command.payload is HistoryUndo) && !(command.payload is HistoryRedo) ==> {
            &&& !command.name_matches() ==> {
                &&& fails_validation(r, mismatch_message(command.name, payload_name(command.payload)))
                &&& rt1 == rt0
            }
            &&& r is Err ==> same_history(h0, h1)
        }
        &&& command.payload is EditorSetMode ==> {
            &&& same_history(h0, h1)
            &&& r matches Ok(res) ==> res.reports(command, true, false, "mode changed"@)
        }
        &&& command.payload is LegacyUndoable ==> {
            &&& same_history(h0, h1)
            &&& rt1 == rt0
            &&& command.name_matches() ==> fails_unsupported(r, command_name_str(command.name))
        }
        &&& is_recorded_payload(command.payload) ==> Self::recorded_outcome(h0, h1, rt0, rt1, command, r)
        &&& r matches Ok(res) ==> reports_execution(res, command)
        &&& !(command.payload is HistoryUndo) && !(command.payload is HistoryRedo) ==> match Self::validation_verdict(h0, rt0, command) {
            Err(m) => {
                &&& fails_validation(r, m)
                &&& rt1 == rt0
                &&& same_history(h0, h1)
            },
            Ok(()) => true,
        }
        &&& Self::runtime_answered(h0, rt0, rt1, command, r)
    }

    /// A command that passed validation and changes the runtime answers
    /// what the runtime's mutator for its payload answered: there is such
    /// an answer, leaving the runtime as it is now, and the command follows
    /// it.
    pub open spec fn runtime_answered<R: CommandRuntime<Snapshot = S>>(
        h0: CommandHistory<S>,
        rt0: R,
        rt1: R,
        command: CommandEnvelope,
        r: Result<CommandResult, CommandError>,
    ) -> bool {
        (is_recorded_payload(command.payload) || command.payload is EditorSetMode) && Self::validation_verdict(
            h0,
            rt0,
            command,
        ) is Ok ==> exists|a: Result<(), CommandError>| #[trigger] rt0.answers(command.payload, a, &rt1) && follows(r, a)
    }

    /// A run of `commands` traced step by step: the first `rs.len()` of
    /// them were executed in order, passing through histories `hs` and
    /// runtimes `rts` and answering `rs`; every step but the last
    /// succeeded. The run answers `Ok` with every result when all commands
    /// ran and succeeded, else the error of the step it stopped at.
    pub open spec fn batch_trace<R: CommandRuntime<Snapshot = S>>(
        h0: CommandHistory<S>,
        h1: CommandHistory<S>,
        rt0: R,
        rt1: R,
        commands: Seq<CommandEnvelope>,
        r: Result<Vec<CommandResult>, CommandError>,
        hs: Seq<CommandHistory<S>>,
        rts: Seq<R>,
        rs: Seq<Result<CommandResult, CommandError>>,
    ) -> bool {
        let k = rs.len() as int;
        &&& k <= commands.len()
        &&& hs.len() == k + 1
        &&& rts.len() == k + 1
        &&& hs[0] == h0
        &&& rts[0] == rt0
        &&& hs[k] == h1
        &&& rts[k] == rt1
        &&& forall|i: int| 0 <= i < k ==> Self::execute_outcome(hs[i], hs[i + 1], rts[i], rts[i + 1], commands[i], #[trigger] rs[i])
        &&& forall|i: int| 0 <= i < k - 1 ==> (#[trigger] rs[i]) is Ok
        &&& match r {
            Ok(v) => k == commands.len() && v@.len() == k && forall|i: int| 0 <= i < k ==> #[trigger] rs[i] == Ok::<CommandResult, CommandError>(v@[i]),
            Err(e) => k >= 1 && rs[k - 1] == Err::<CommandResult, CommandError>(e),
        }
    }

    /// Running `commands` one by one with [`Self::execute`], stopping at the
    /// first error, takes history `h0` and runtime `rt0` to `h1` and `rt1`
    /// and answers `r`.
    pub open spec fn batch_outcome<R: CommandRuntime<Snapshot = S>>(
        h0: CommandHistory<S>,
        h1: CommandHistory<S>,
        rt0: R,
        rt1: R,
        commands: Seq<CommandEnvelope>,
        r: Result<Vec<CommandResult>, CommandError>,
    ) -> bool {
        exists|hs: Seq<CommandHistory<S>>, rts: Seq<R>, rs: Seq<Result<CommandResult, CommandError>>|
            #[trigger] Self::batch_trace(h0, h1, rt0, rt1, commands, r, hs, rts, rs)
    }

    /// What validating `command` against history `h` and runtime `rt` gives:
    /// `Ok`, or the message the command fails with.
    pub open spec fn validation_verdict<R: CommandRuntime<Snapshot = S>>(
        h: CommandHistory<S>,
        rt: R,
        command: CommandEnvelope,
    ) -> Result<(), Seq<char>> {
        if !command.name_matches() {
            Err(mismatch_message(command.name, payload_name(command.payload)))
        } else {
            match command.payload {
                CommandPayload::SelectionClear(_) | CommandPayload::LegacyUndoable { .. } => Ok(()),
                CommandPayload::HistoryUndo => if h.done_records().len() > 0 {
                    Ok(())
                } else {
                    Err("nothing to undo"@)
                },
                CommandPayload::HistoryRedo => if h.undone_records().len() > 0 {
                    Ok(())
                } else {
                    Err("nothing to redo"@)
                },
                p => if rt.validation_of(p).valid {
                    Ok(())
                } else {
                    Err(validation_failure_text(rt.validation_of(p)))
                },
            }
        }
    }

    /// Finish undoing `record` once the runtime answered `restored` to the
    /// restore of its `before` state: on success the record becomes
    /// redoable and the undo is reported; otherwise the runtime's error is
    /// returned and the history stays as it is.
    pub fn finish_undo(&mut self, record: UndoRecord<S>, restored: Result<(), CommandError>, command: &CommandEnvelope) -> (r: Result<CommandResult, CommandError>)
        requires
            old(self).wf(),
        ensures
            final(self).wf(),
            restored is Ok ==> {
                &&& r matches Ok(res) && res.reports(*command, true, false, "undo complete"@)
                &&& final(self).history().done_records() == old(self).history().done_records()
                &&& final(self).history().undone_records() == old(self).history().undone_records().push(record)
                &&& final(self).history().capacity() == old(self).history().capacity()
            },
            restored matches Err(e) ==> {
                &&& r == Err::<CommandResult, CommandError>(e)
                &&& same_history(old(self).history(), final(self).history())
            },
    {
        match restored {
            Err(e) => Err(e),
            Ok(()) => {
                self.history.push_redo(record);
                Ok(CommandResult::new(command, true, false, owned("undo complete")))
            },
        }
    }

    /// Finish redoing `record` once the runtime answered `restored` to the
    /// restore of its `after` state: on success the record is undoable
    /// again (the other redoable records stay) and the redo is reported;
    /// otherwise the runtime's error is returned and the history stays.
    pub fn finish_redo(&mut self, record: UndoRecord<S>, restored: Result<(), CommandError>, command: &CommandEnvelope) -> (r: Result<CommandResult, CommandError>)
        requires
            old(self).wf(),
        ensures
            final(self).wf(),
            restored is Ok ==> {
                &&& r matches Ok(res) && res.reports(*command, true, false, "redo complete"@)
                &&& final(self).history().done_records() == appended_within(
                    old(self).history().done_records(),
                    record,
                    old(self).history().capacity(),
                )
                &&& final(self).history().undone_records() == old(self).history().undone_records()
                &&& final(self).history().capacity() == old(self).history().capacity()
            },
            restored matches Err(e) ==> {
                &&& r == Err::<CommandResult, CommandError>(e)
                &&& same_history(old(self).history(), final(self).history())
            },
    {
        match restored {
            Err(e) => Err(e),
            Ok(()) => {
                self.history.push_done_without_clearing_redo(record);
                Ok(CommandResult::new(command, true, false, owned("redo complete")))
            },
        }
    }

    /// Finish a recorded command once the runtime answered: `applied` is
    /// the state after a successful change, or the runtime's error. On
    /// success a record with the states `before` and after is appended, the
    /// redo stack is emptied and the command is reported as executed;
    /// otherwise the error is returned and the history stays.
    pub fn finish_recorded(&mut self, command: CommandEnvelope, before: S, applied: Result<S, CommandError>) -> (r: Result<CommandResult, CommandError>)
        requires
            old(self).wf(),
        ensures
            final(self).wf(),
            applied matches Ok(after) ==> {
                &&& r matches Ok(res) && res.reports(command, true, false, "command executed"@)
                &&& final(self).history().capacity() == old(self).history().capacity()
                &&& final(self).history().undone_records() == Seq::<UndoRecord<S>>::empty()
                &&& final(self).history().done_records() == appended_within(
                    old(self).history().done_records(),
                    UndoRecord { command, before, after },
                    old(self).history().capacity(),
                )
            },
            applied matches Err(e) ==> {
                &&& r == Err::<CommandResult, CommandError>(e)
                &&& same_history(old(self).history(), final(self).history())
            },
    {
        match applied {
            Err(e) => Err(e),
            Ok(after) => {
                let result = CommandResult::new(&command, true, false, owned("command executed"));
                self.history.push(UndoRecord { command, before, after });
                Ok(result)
            },
        }
    }

    /// Validate `command` against the router's own rules and the runtime's.
    /// The runtime decides for payloads that touch its state.
    pub fn validate<R: CommandRuntime<Snapshot = S>>(&self, runtime: &R, command: &CommandEnvelope) -> (r: ValidationResult)
        ensures
            !command.name_matches() ==> r.is_error(
                "NAME_PAYLOAD_MISMATCH"@,
                mismatch_message(command.name, payload_name(command.payload)),
            ),
            command.name_matches() ==> match command.payload {
                CommandPayload::SelectionClear(_) | CommandPayload::LegacyUndoable { .. } => r.is_clean(),
                CommandPayload::HistoryUndo => if self.history().done_records().len() > 0 {
                    r.is_clean()
                } else {
                    r.is_error("NOTHING_TO_UNDO"@, "nothing to undo"@)
                },
                CommandPayload::HistoryRedo => if self.history().undone_records().len() > 0 {
                    r.is_clean()
                } else {
                    r.is_error("NOTHING_TO_REDO"@, "nothing to redo"@)
                },
                _ => true,
            },
            command.name_matches() && is_runtime_validated(command.payload) ==> r == runtime.validation_of(
                command.payload,
            ),
    {
        let payload_name = command.payload.name();
        if command.name != payload_name {
            return ValidationResult::error(
                owned("NAME_PAYLOAD_MISMATCH"),
                mismatch_text(command.name, payload_name),
            );
        }
        match &command.payload {
            CommandPayload::SelectionSet(payload) => runtime.validate_selection_set(payload),
            CommandPayload::SelectionClear(_) => ValidationResult::valid(),
            CommandPayload::AvatarEquipAsset(payload) => runtime.validate_avatar_equip_asset(payload),
            CommandPayload::MaterialSetColor(payload) => runtime.validate_material_set_color(payload),
            CommandPayload::SceneSetVisible(payload) => runtime.validate_scene_set_visible(payload),
            CommandPayload::SceneSetLocked(payload) => runtime.validate_scene_set_locked(payload),
            CommandPayload::TransformSetTranslation(payload) => {
                runtime.validate_transform_set_translation(payload)
            },
            CommandPayload::TransformSetRotation(payload) => {
                runtime.validate_transform_set_rotation(payload)
            },
            CommandPayload::TransformSetScale(payload) => runtime.validate_transform_set_scale(payload),
            CommandPayload::TransformApplyDelta(payload) => {
                runtime.validate_transform_apply_delta(payload)
            },
            CommandPayload::TransformReset(payload) => runtime.validate_transform_reset(payload),
            CommandPayload::EditorSetMode(payload) => runtime.validate_editor_set_mode(payload),
            CommandPayload::HistoryUndo => {
                if self.can_undo() {
                    ValidationResult::valid()
                } else {
                    ValidationResult::error(owned("NOTHING_TO_UNDO"), owned("nothing to undo"))
                }
            },
            CommandPayload::HistoryRedo => {
                if self.can_redo() {
                    ValidationResult::valid()
                } else {
                    ValidationResult::error(owned("NOTHING_TO_REDO"), owned("nothing to redo"))
                }
            },
            CommandPayload::LegacyUndoable { .. } => ValidationResult::valid(),
        }
    }

    fn require_valid<R: CommandRuntime<Snapshot = S>>(&self, runtime: &R, command: &CommandEnvelope) -> (r: Result<(), CommandError>)
        ensures
            match Self::validation_verdict(self.history(), *runtime, *command) {
                Ok(()) => r is Ok,
                Err(m) => fails_validation(r, m),
            },
            !command.name_matches() ==> fails_validation(r, mismatch_message(command.name, payload_name(command.payload))),
            command.name_matches() ==> match command.payload {
                CommandPayload::SelectionClear(_) | CommandPayload::LegacyUndoable { .. } => r is Ok,
                CommandPayload::HistoryUndo => if self.history().done_records().len() > 0 {
                    r is Ok
                } else {
                    fails_validation(r, "nothing to undo"@)
                },
                CommandPayload::HistoryRedo => if self.history().undone_records().len() > 0 {
                    r is Ok
                } else {
                    fails_validation(r, "nothing to redo"@)
                },
                _ => true,
            },
    {
        let validation = self.validate(runtime, command);
        proof {
            if !validation.valid && validation.warnings@.len() == 1 && validation.warnings@[0].severity
                == crate::commands::validation::ValidationSeverity::Error {
                assert(validation.warnings@.drop_first().len() == 0);
            }
        }
        check_validation(&validation)
    }

    /// Validate without running: the runtime and the history are untouched.
    pub fn dry_run<R: CommandRuntime<Snapshot = S>>(&self, runtime: &R, command: &CommandEnvelope) -> (r: Result<CommandResult, CommandError>)
        ensures
            match Self::validation_verdict(self.history(), *runtime, *command) {
                Ok(()) => r matches Ok(res) && res.reports(*command, false, true, "dry-run valid"@),
                Err(m) => fails_validation(r, m),
            },
            r matches Ok(res) ==> res.reports(*command, false, true, "dry-run valid"@),
            !command.name_matches() ==> fails_validation(r, mismatch_message(command.name, payload_name(command.payload))),
            command.name_matches() ==> match command.payload {
                CommandPayload::SelectionClear(_) | CommandPayload::LegacyUndoable { .. } => r is Ok,
                CommandPayload::HistoryUndo => if self.history().done_records().len() > 0 {
                    r is Ok
                } else {
                    fails_validation(r, "nothing to undo"@)
                },
                CommandPayload::HistoryRedo => if self.history().undone_records().len() > 0 {
                    r is Ok
                } else {
                    fails_validation(r, "nothing to redo"@)
                },
                _ => true,
            },
    {
        match self.require_valid(runtime, command) {
            Err(e) => Err(e),
            Ok(()) => Ok(CommandResult::new(command, false, true, owned("dry-run valid"))),
        }
    }


    /// Undo the newest recorded command by restoring its `before` state.
    pub fn undo<R: CommandRuntime<Snapshot = S>>(&mut self, runtime: &mut R, command: &CommandEnvelope) -> (r: Result<CommandResult, CommandError>)
        requires
            old(self).wf(),
        ensures
            final(self).wf(),
            Self::undo_outcome(old(self).history(), final(self).history(), *old(runtime), *final(runtime), *command, r),
    {
        let record = match self.history.pop_undo() {
            Some(record) => record,
            None => return Err(CommandError::NothingToUndo),
        };
        let restored = runtime.restore_snapshot(&record.before);
        self.finish_undo(record, restored, command)
    }

    /// Redo the next undone command by restoring its `after` state.
    pub fn redo<R: CommandRuntime<Snapshot = S>>(&mut self, runtime: &mut R, command: &CommandEnvelope) -> (r: Result<CommandResult, CommandError>)
        requires
            old(self).wf(),
        ensures
            final(self).wf(),
            Self::redo_outcome(old(self).history(), final(self).history(), *old(runtime), *final(runtime), *command, r),
    {
        let record = match self.history.pop_redo() {
            Some(record) => record,
            None => return Err(CommandError::NothingToRedo),
        };
        let restored = runtime.restore_snapshot(&record.after);
        self.finish_redo(record, restored, command)
    }

    /// Run a command. Undo and redo commands act on the history; a mode
    /// change runs without being recorded; every other command is
    /// validated, applied, and recorded with the states before and after.
    pub fn execute<R: CommandRuntime<Snapshot = S>>(&mut self, runtime: &mut R, command: CommandEnvelope) -> (r: Result<CommandResult, CommandError>)
        requires
            old(self).wf(),
        ensures
            final(self).wf(),
            command.payload is HistoryUndo ==> Self::undo_outcome(
                old(self).history(),
                final(self).history(),
                *old(runtime),
                *final(runtime),
                command,
                r,
            ),
            command.payload is HistoryRedo ==> Self::redo_outcome(
                old(self).history(),
                final(self).history(),
                *old(runtime),
                *final(runtime),
                command,
                r,
            ),
            !(command.payload is HistoryUndo) && !(command.payload is HistoryRedo) ==> {
                &&& !command.name_matches() ==> {
                    &&& fails_validation(r, mismatch_message(command.name, payload_name(command.payload)))
                    &&& *final(runtime) == *old(runtime)
                }
                &&& r is Err ==> same_history(old(self).history(), final(self).history())
            },
            command.payload is EditorSetMode ==> {
                &&& same_history(old(self).history(), final(self).history())
                &&& r matches Ok(res) ==> res.reports(command, true, false, "mode changed"@)
            },
            command.payload is LegacyUndoable ==> {
                &&& same_history(old(self).history(), final(self).history())
                &&& *final(runtime) == *old(runtime)
                &&& command.name_matches() ==> fails_unsupported(r, command_name_str(command.name))
            },
            is_recorded_payload(command.payload) ==> Self::recorded_outcome(
                old(self).history(),
                final(self).history(),
                *old(runtime),
                *final(runtime),
                command,
                r,
            ),
            r matches Ok(res) ==> reports_execution(res, command),
            !(command.payload is HistoryUndo) && !(command.payload is HistoryRedo) ==> match Self::validation_verdict(
                old(self).history(),
                *old(runtime),
                command,
            ) {
                Err(m) => {
                    &&& fails_validation(r, m)
                    &&& *final(runtime) == *old(runtime)
                    &&& same_history(old(self).history(), final(self).history())
                },
                Ok(()) => true,
            },
            Self::runtime_answered(old(self).history(), *old(runtime), *final(runtime), command, r),
    {
        match &command.payload {
            CommandPayload::HistoryUndo => {
                return self.undo(runtime, &command);
            },
            CommandPayload::HistoryRedo => {
                return self.redo(runtime, &command);
            },
            CommandPayload::EditorSetMode(payload) => {
                match self.require_valid(runtime, &command) {
                    Err(e) => return Err(e),
                    Ok(()) => {},
                }
                let ghost rt_before = *runtime;
                let answer = runtime.set_editor_mode(payload);
                proof {
                    assert(rt_before.answers(command.payload, answer, &*runtime));
                }
                match answer {
                    Err(e) => return Err(e),
                    Ok(()) => {},
                }
                return Ok(CommandResult::new(&command, true, false, owned("mode changed")));
            },
            _ => {},
        }
        match self.require_valid(runtime, &command) {
            Err(e) => return Err(e),
            Ok(()) => {},
        }
        let before = runtime.snapshot();
        let ghost rt_before = *runtime;
        let applied = match &command.payload {
            CommandPayload::SelectionSet(payload) => runtime.set_selection(payload),
            CommandPayload::SelectionClear(_) => runtime.clear_selection(),
            CommandPayload::AvatarEquipAsset(payload) => runtime.equip_asset(payload),
            CommandPayload::MaterialSetColor(payload) => runtime.set_material_color(payload),
            CommandPayload::SceneSetVisible(payload) => runtime.scene_set_visible(payload),
            CommandPayload::SceneSetLocked(payload) => runtime.scene_set_locked(payload),
            CommandPayload::TransformSetTranslation(payload) => runtime.transform_set_translation(payload),
            CommandPayload::TransformSetRotation(payload) => runtime.transform_set_rotation(payload),
            CommandPayload::TransformSetScale(payload) => runtime.transform_set_scale(payload),
            CommandPayload::TransformApplyDelta(payload) => runtime.transform_apply_delta(payload),
            CommandPayload::TransformReset(payload) => runtime.transform_reset(payload),
            CommandPayload::EditorSetMode(_) | CommandPayload::LegacyUndoable { .. }
            | CommandPayload::HistoryUndo | CommandPayload::HistoryRedo => {
                Err(CommandError::Unsupported(owned(command.name.as_str())))
            },
        };
        proof {
            if is_recorded_payload(command.payload) {
                assert(rt_before.answers(command.payload, applied, &*runtime));
            }
        }
        let outcome = match applied {
            Err(e) => Err(e),
            Ok(()) => Ok(runtime.snapshot()),
        };
        self.finish_recorded(command, before, outcome)
    }


    /// Run commands in order, stopping at the first error.
    pub fn execute_batch<R: CommandRuntime<Snapshot = S>>(&mut self, runtime: &mut R, commands: Vec<CommandEnvelope>) -> (r: Result<Vec<CommandResult>, CommandError>)
        requires
            old(self).wf(),
        ensures
            final(self).wf(),
            r matches Ok(v) ==> v@.len() == commands@.len() && forall|i: int|
                0 <= i < v@.len() ==> reports_execution(#[trigger] v@[i], commands@[i]),
            Self::batch_outcome(old(self).history(), final(self).history(), *old(runtime), *final(runtime), commands@, r),
    {
        let ghost all = commands@;
        let ghost h0 = self.history();
        let ghost rt0 = *runtime;
        let ghost mut hs: Seq<CommandHistory<S>> = seq![h0];
        let ghost mut rts: Seq<R> = seq![rt0];
        let ghost mut rs: Seq<Result<CommandResult, CommandError>> = Seq::empty();
        let mut rest = commands;
        let mut out: Vec<CommandResult> = Vec::new();
        while rest.len() > 0
            invariant
                self.wf(),
                out@.len() + rest@.len() == all.len(),
                rest@ == all.subrange(out@.len() as int, all.len() as int),
                forall|i: int| 0 <= i < out@.len() ==> reports_execution(#[trigger] out@[i], all[i]),
                rs.len() == out@.len(),
                hs.len() == out@.len() + 1,
                rts.len() == out@.len() + 1,
                hs[0] == h0,
                rts[0] == rt0,
                h0 == old(self).history(),
                rt0 == *old(runtime),
                all == commands@,
                hs[out@.len() as int] == self.history(),
                rts[out@.len() as int] == *runtime,
                forall|i: int| 0 <= i < rs.len() ==> Self::execute_outcome(hs[i], hs[i + 1], rts[i], rts[i + 1], all[i], #[trigger] rs[i]),
                forall|i: int| 0 <= i < rs.len() ==> #[trigger] rs[i] == Ok::<CommandResult, CommandError>(out@[i]),
            decreases rest@.len(),
        {
            let command = rest.remove(0);
            assert(command == all[out@.len() as int]);
            let ghost hb = self.history();
            let ghost rtb = *runtime;
            let res = self.execute(runtime, command);
            proof {
                assert(Self::execute_outcome(hb, self.history(), rtb, *runtime, all[out@.len() as int], res));
                hs = hs.push(self.history());
                rts = rts.push(*runtime);
                rs = rs.push(res);
            }
            match res {
                Err(e) => {
                    proof {
                        let k = rs.len() as int;
                        assert(Self::batch_trace(h0, self.history(), rt0, *runtime, all, Err::<Vec<CommandResult>, CommandError>(e), hs, rts, rs)) by {
                            assert forall|i: int| 0 <= i < k - 1 implies (#[trigger] rs[i]) is Ok by {
                                assert(rs[i] == Ok::<CommandResult, CommandError>(out@[i]));
                            }
                        }
                    }
                    return Err(e);
                },
                Ok(res) => {
                    out.push(res);
                },
            }
            assert(rest@ =~= all.subrange(out@.len() as int, all.len() as int));
        }
        proof {
            let k = rs.len() as int;
            assert(Self::batch_trace(h0, self.history(), rt0, *runtime, all, Ok::<Vec<CommandResult>, CommandError>(out), hs, rts, rs)) by {
                assert forall|i: int| 0 <= i < k - 1 implies (#[trigger] rs[i]) is Ok by {
                    assert(rs[i] == Ok::<CommandResult, CommandError>(out@[i]));
                }
            }
        }
        Ok(out)
    }

    /// Replay a recorded command list; same as [`Self::execute_batch`].
    pub fn replay<R: CommandRuntime<Snapshot = S>>(&mut self, runtime: &mut R, commands: Vec<CommandEnvelope>) -> (r: Result<Vec<CommandResult>, CommandError>)
        requires
            old(self).wf(),
        ensures
            final(self).wf(),
            r matches Ok(v) ==> v@.len() == commands@.len() && forall|i: int|
                0 <= i < v@.len() ==> reports_execution(#[trigger] v@[i], commands@[i]),
            Self::batch_outcome(old(self).history(), final(self).history(), *old(runtime), *final(runtime), commands@, r),
    {
        self.execute_batch(runtime, commands)
    }

    /// Record a change made outside the command layer so it can be undone.
    /// Only `legacy.undoable` envelopes are accepted.
    pub fn record_external(&mut self, command: CommandEnvelope, before: S, after: S) -> (r: Result<(), CommandError>)
        requires
            old(self).wf(),
        ensures
            final(self).wf(),
            command.name != CommandName::LegacyUndoable ==> {
                &&& fails_unsupported(r, external_record_message(command.name))
                &&& same_history(old(self).history(), final(self).history())
            },
            command.name == CommandName::LegacyUndoable ==> {
                &&& r is Ok
                &&& final(self).history().capacity() == old(self).history().capacity()
                &&& final(self).history().undone_records() == Seq::<UndoRecord<S>>::empty()
                &&& final(self).history().done_records() == appended_within(
                    old(self).history().done_records(),
                    UndoRecord { command, before, after },
                    old(self).history().capacity(),
                )
            },
    {
        if command.name != CommandName::LegacyUndoable {
            let a = concat("external records must use ", CommandName::LegacyUndoable.as_str());
            let b = concat(a.as_str(), ", got ");
            let m = concat(b.as_str(), command.name.as_str());
            return Err(CommandError::Unsupported(m));
        }
        self.history.push(UndoRecord { command, before, after });
        Ok(())
    }

    pub fn can_undo(&self) -> (b: bool)
        ensures
            b == (self.history().done_records().len() > 0),
    {
        self.history.can_undo()
    }

    pub fn can_redo(&self) -> (b: bool)
        ensures
            b == (self.history().undone_records().len() > 0),
    {
        self.history.can_redo()
    }

    pub fn command_history(&self) -> (h: &CommandHistory<S>)
        ensures
            *h == self.history(),
    {
        &self.history
    }

    pub fn clear_history(&mut self)
        ensures
            final(self).wf(),
            final(self).history().capacity() == old(self).history().capacity(),
            final(self).history().done_records() == Seq::<UndoRecord<S>>::empty(),
            final(self).history().undone_records() == Seq::<UndoRecord<S>>::empty(),
    {
        self.history.clear();
    }
}

/// Undoing a command right after it ran, when the runtime can restore the
/// state the command found, succeeds, brings the runtime back to that
/// state, leaves the record as the only redoable one, and, unless the undo
/// stack was full, gives back the undo stack the command found.
pub proof fn law_undo_after_execute_restores<S, R: CommandRuntime<Snapshot = S>>(
    h0: CommandHistory<S>,
    h1: CommandHistory<S>,
    h2: CommandHistory<S>,
    rt0: R,
    rt1: R,
    rt2: R,
    command: CommandEnvelope,
    undo_command: CommandEnvelope,
    r1: Result<CommandResult, CommandError>,
    r2: Result<CommandResult, CommandError>,
)
    requires
        h0.wf(),
        h0.capacity() > 0,
        CommandRouter::<S>::recorded_outcome(h0, h1, rt0, rt1, command, r1),
        r1 is Ok,
        CommandRouter::<S>::undo_outcome(h1, h2, rt1, rt2, undo_command, r2),
        rt1.restore_outcome(rt0.state()) is Ok,
    ensures
        r2 is Ok,
        rt2.state() == rt0.state(),
        h2.undone_records() == seq![UndoRecord { command, before: rt0.state(), after: rt1.state() }],
        h0.done_records().len() < h0.capacity() ==> h2.done_records() == h0.done_records(),
{
    let rec = UndoRecord { command, before: rt0.state(), after: rt1.state() };
    crate::commands::history::law_append_stays_bounded(h0.done_records(), rec, h0.capacity());
    assert(h1.done_records().len() > 0);
    assert(Seq::<UndoRecord<S>>::empty().push(rec) =~= seq![rec]);
}

/// Undoing and then redoing, when the runtime can restore both states,
/// both succeed, bring back the state the undone command had produced, and
/// give back both stacks exactly.
pub proof fn law_redo_after_undo_restores<S, R: CommandRuntime<Snapshot = S>>(
    h0: CommandHistory<S>,
    h1: CommandHistory<S>,
    h2: CommandHistory<S>,
    rt0: R,
    rt1: R,
    rt2: R,
    undo_command: CommandEnvelope,
    redo_command: CommandEnvelope,
    r1: Result<CommandResult, CommandError>,
    r2: Result<CommandResult, CommandError>,
)
    requires
        h0.wf(),
        h0.done_records().len() > 0,
        CommandRouter::<S>::undo_outcome(h0, h1, rt0, rt1, undo_command, r1),
        rt0.restore_outcome(h0.done_records().last().before) is Ok,
        CommandRouter::<S>::redo_outcome(h1, h2, rt1, rt2, redo_command, r2),
        rt1.restore_outcome(h0.done_records().last().after) is Ok,
    ensures
        r1 is Ok,
        r2 is Ok,
        rt1.state() == h0.done_records().last().before,
        rt2.state() == h0.done_records().last().after,
        h2.done_records() == h0.done_records(),
        h2.undone_records() == h0.undone_records(),
{
    crate::commands::history::law_undo_then_redo_restores(
        h0.done_records(),
        h0.undone_records(),
        h0.capacity(),
    );
}

} // verus!
