//! Finding the offset to use: the cache first, then the host, then a date
//! command, and UTC when all of them fail.
use vstd::prelude::*;
use crate::cache::{get_global_offset, try_set_global_offset, OffsetCache};
use crate::error::{Error, Errors};
use crate::offset::{from_offset_pair, valid_pair, UtcOffset};
use crate::parse::{output_parts, parse_cmd_output};
use crate::timestamp::{get_local_timestamp_from_offset_rfc3339, has_layout, timestamp_at};

verus! {

/// How the run of a date command ended.
#[derive(Debug, PartialEq, Eq)]
pub enum CommandOutcome {
    /// The command ran to its end: its exit code, where the platform gave one,
    /// and what it wrote to its standard output.
    Exited(Option<i32>, Vec<u8>),
    /// The command could not be run; the text says why.
    LaunchFailed(String),
}

/// The offset that hours, minutes and seconds of one sign name, if they name
/// one: no seconds, no part against the sign of another, the hours in
/// `-12..=14` and the minutes, taken without sign, in `0..=59`. With zero
/// hours the minutes must not be negative, for the hours carry the sign.
pub open spec fn hms_parts(hours: i8, minutes: i8, seconds: i8) -> Option<(int, int)> {
    if seconds == 0 && hours >= 0 && minutes >= 0 && valid_pair(hours as int, minutes as int) {
        Some((hours as int, minutes as int))
    } else if seconds == 0 && hours < 0 && minutes <= 0 && valid_pair(hours as int, -minutes) {
        Some((hours as int, -minutes))
    } else {
        None
    }
}

/// What the date command's outcome gives: the offset it printed where it
/// ended with exit code zero, or the failure to record. A command that ended
/// otherwise has failed, whatever it printed.
pub open spec fn process_result(outcome: CommandOutcome) -> Result<(int, int), Error> {
    match outcome {
        CommandOutcome::Exited(code, stdout) => if code == Some(0i32) {
            output_parts(stdout@)
        } else {
            Err(Error::CommandFailed(code))
        },
        CommandOutcome::LaunchFailed(why) => Err(Error::TimeCommand(why)),
    }
}

/// The offset that the host's answer names, if the host answered and named
/// one.
pub open spec fn host_parts(host: Option<(i8, i8, i8)>) -> Option<(int, int)> {
    match host {
        Some(hms) => hms_parts(hms.0, hms.1, hms.2),
        None => None,
    }
}

/// Whether `res` is what the search outside the cache gives when the host
/// answered `host`: the host's offset where it named one; else what the
/// outcome of one run of `run_command` gives.
pub open spec fn is_construction<F: FnOnce() -> CommandOutcome>(
    host: Option<(i8, i8, i8)>,
    run_command: F,
    res: Result<UtcOffset, Error>,
) -> bool {
    match host_parts(host) {
        Some(parts) => res matches Ok(o) && o.wf() && o.parts() == parts,
        None => exists|outcome: CommandOutcome|
            run_command.ensures((), outcome) && (match res {
                Ok(o) => o.wf() && #[trigger] process_result(outcome) == Ok::<(int, int), Error>(
                    o.parts(),
                ),
                Err(e) => process_result(outcome) == Err::<(int, int), Error>(e),
            }),
    }
}

/// How a resolution ends that found `found`: with that offset, or with UTC and
/// the failure on record; and in either case with `WriteLock` added at the end
/// where the cache could not be written.
pub open spec fn settled(found: Result<(int, int), Error>, offset: UtcOffset, errs: Seq<Error>)
    -> bool {
    match found {
        Ok(parts) => offset.parts() == parts && (errs == Seq::<Error>::empty() || errs
            == seq![Error::WriteLock]),
        Err(e) => offset.parts() == (0int, 0int) && (errs == seq![e] || errs == seq![
            e,
            Error::WriteLock,
        ]),
    }
}

/// Whether `offset` with the list `errs` is an end that a resolution can take
/// whose date command is `run_command`. Either nothing went wrong but,
/// perhaps, writing the cache. Or the command was needed and failed: then the
/// offset is UTC, and the list holds the command's failure and, perhaps, that
/// of writing the cache.
pub open spec fn is_resolution<F: FnOnce() -> CommandOutcome>(
    run_command: F,
    offset: UtcOffset,
    errs: Seq<Error>,
) -> bool {
    &&& offset.wf()
    &&& (errs == Seq::<Error>::empty() || errs == seq![Error::WriteLock] || exists|
        outcome: CommandOutcome,
    |
        run_command.ensures((), outcome) && process_result(outcome) is Err && #[trigger] settled(
            process_result(outcome),
            offset,
            errs,
        ))
}

/// Calls `UtcOffset::current_local_offset` of `time` and, where it answers,
/// `UtcOffset::as_hms` on the answer: the host's offset as hours, minutes and
/// seconds, or nothing where the host cannot tell. Nothing is claimed of it.
#[verifier::external_body]
fn current_local_hms() -> (hms: Option<(i8, i8, i8)>) {
    match time::UtcOffset::current_local_offset() {
        Ok(o) => Some(o.as_hms()),
        Err(_) => None,
    }
}

/// The offset of hours, minutes and seconds that all have one sign, as the
/// host reports them.
pub fn offset_from_hms(hours: i8, minutes: i8, seconds: i8) -> (res: Option<UtcOffset>)
    ensures
        match res {
            Some(o) => o.wf() && hms_parts(hours, minutes, seconds) == Some(o.parts()),
            None => hms_parts(hours, minutes, seconds) is None,
        },
{
    if seconds != 0 || minutes < -59 {
        return None;
    }
    let away: i8 = if hours < 0 {
        -minutes
    } else {
        minutes
    };
    match from_offset_pair(hours, away) {
        Ok(o) => Some(o),
        Err(_) => None,
    }
}

/// The offset that the date command printed, or the failure to record:
/// `TimeCommand` with the reason where the command did not run,
/// `CommandFailed` where it did not end with exit code zero, `NotUtf8` or
/// `Parse` where its output names no offset.
pub fn offset_from_process(outcome: CommandOutcome) -> (res: Result<UtcOffset, Error>)
    ensures
        match res {
            Ok(o) => o.wf() && process_result(outcome) == Ok::<(int, int), Error>(o.parts()),
            Err(e) => process_result(outcome) == Err::<(int, int), Error>(e),
        },
{
    match outcome {
        CommandOutcome::Exited(code, stdout) => {
            match code {
                Some(0) => parse_cmd_output(stdout.as_slice()),
                _ => Err(Error::CommandFailed(code)),
            }
        },
        CommandOutcome::LaunchFailed(why) => Err(Error::TimeCommand(why)),
    }
}

/// The offset to go on with after the search for one ended in `found`: the
/// offset found, or UTC with the failure as the first entry of the list.
pub fn or_utc(found: Result<UtcOffset, Error>) -> (res: (UtcOffset, Errors))
    ensures
        match found {
            Ok(o) => res.0 == o && res.1@ == Seq::<Error>::empty(),
            Err(e) => res.0.wf() && res.0.parts() == (0int, 0int) && res.1@ == seq![e],
        },
{
    let mut errs = Errors::new();
    match found {
        Ok(o) => (o, errs),
        Err(e) => {
            errs.push(e);
            (UtcOffset::utc(), errs)
        },
    }
}

/// Puts on record how storing the resolved offset went: a failure is added at
/// the end of the list, success leaves the list as it is.
pub fn note_store(errs: &mut Errors, stored: Result<(), Error>)
    ensures
        match stored {
            Ok(_) => final(errs)@ == old(errs)@,
            Err(e) => final(errs)@ == old(errs)@.push(e),
        },
{
    if let Err(e) = stored {
        errs.push(e);
    }
}

/// Ends a resolution whose search gave `found`: falls back to UTC where it
/// failed, offers the offset to the cache, and returns it with everything that
/// went wrong.
pub fn settle(cache: &OffsetCache, found: Result<UtcOffset, Error>) -> (res: (UtcOffset, Errors))
    ensures
        res.0.wf(),
        settled(
            match found {
                Ok(o) => Ok(o.parts()),
                Err(e) => Err(e),
            },
            res.0,
            res.1@,
        ),
{
    let ghost search = found;
    let (o, mut errs) = or_utc(found);
    proof {
        use_type_invariant(&o);
    }
    let stored = try_set_global_offset(cache, o);
    note_store(&mut errs, stored);
    proof {
        assert(seq![Error::WriteLock] =~= Seq::<Error>::empty().push(Error::WriteLock));
        if let Err(e) = search {
            assert(seq![e, Error::WriteLock] =~= seq![e].push(Error::WriteLock));
        }
    }
    (o, errs)
}

/// Chooses between the host and the date command. Where the host answered
/// `host` and that names an offset, it is the result and the command is not
/// run. Else `run_command` is called, once, and the result is what
/// `offset_from_process` makes of its outcome.
pub fn construct_offset_from<F: FnOnce() -> CommandOutcome>(
    host: Option<(i8, i8, i8)>,
    run_command: F,
) -> (res: Result<UtcOffset, Error>)
    requires
        run_command.requires(()),
    ensures
        is_construction(host, run_command, res),
{
    if let Some((hours, minutes, seconds)) = host {
        if let Some(o) = offset_from_hms(hours, minutes, seconds) {
            return Ok(o);
        }
    }
    let outcome: CommandOutcome = run_command();
    let ghost seen = outcome;
    let res = offset_from_process(outcome);
    proof {
        assert(match res {
            Ok(o) => o.wf() && process_result(seen) == Ok::<(int, int), Error>(o.parts()),
            Err(e) => process_result(seen) == Err::<(int, int), Error>(e),
        });
    }
    res
}

/// Looks for the offset outside the cache: asks the host for its offset and
/// goes on as `construct_offset_from` does with the answer. A failure is that
/// of the command: what the host could not tell is not kept.
pub fn construct_offset<F: FnOnce() -> CommandOutcome>(run_command: F) -> (res: Result<
    UtcOffset,
    Error,
>)
    requires
        run_command.requires(()),
    ensures
        exists|host: Option<(i8, i8, i8)>| #[trigger] is_construction(host, run_command, res),
{
    let host = current_local_hms();
    construct_offset_from(host, run_command)
}

/// Goes on after the cache answered `cached`. An offset found there is the
/// result, with an empty list, and nothing else is tried. Else the offset is
/// looked for as `construct_offset` does and the search is ended as `settle`
/// does: UTC where it failed, the cache offered what was found, everything
/// that went wrong on the list.
pub fn resolve_after<F: FnOnce() -> CommandOutcome>(
    cache: &OffsetCache,
    cached: Result<UtcOffset, Error>,
    run_command: F,
) -> (res: (UtcOffset, Errors))
    requires
        run_command.requires(()),
    ensures
        cached matches Ok(o) ==> res.0 == o && res.1@ == Seq::<Error>::empty(),
        cached is Err ==> is_resolution(run_command, res.0, res.1@),
{
    if let Ok(o) = cached {
        return (o, Errors::new());
    }
    let found = construct_offset(run_command);
    let ghost search = found;
    let res = settle(cache, found);
    proof {
        let host = choose|host: Option<(i8, i8, i8)>| #[trigger]
            is_construction(host, run_command, search);
        if let Err(e) = search {
            assert(host_parts(host) is None);
            let outcome = choose|outcome: CommandOutcome|
                run_command.ensures((), outcome) && #[trigger] process_result(outcome) == Err::<
                    (int, int),
                    Error,
                >(e);
            assert(settled(process_result(outcome), res.0, res.1@));
        }
    }
    res
}

/// The offset to use, and what went wrong on the way to it: what
/// `resolve_after` makes of the cache's answer. The call itself never fails.
pub fn get_utc_offset<F: FnOnce() -> CommandOutcome>(cache: &OffsetCache, run_command: F) -> (res:
    (UtcOffset, Errors))
    requires
        run_command.requires(()),
    ensures
        is_resolution(run_command, res.0, res.1@),
{
    let cached = get_global_offset(cache);
    let ghost answer = cached;
    let res = resolve_after(cache, cached, run_command);
    proof {
        if let Ok(o) = answer {
            assert(o.wf());
        }
    }
    res
}

/// The timestamp of the current moment at the offset that `get_utc_offset`
/// finds, and what went wrong while finding it. Only a timestamp that cannot
/// be made is a failure of the call.
pub fn get_local_timestamp_rfc3339<F: FnOnce() -> CommandOutcome>(
    cache: &OffsetCache,
    run_command: F,
) -> (res: Result<(String, Errors), Error>)
    requires
        run_command.requires(()),
    ensures
        match res {
            Ok(pair) => {
                &&& has_layout(pair.0@)
                &&& exists|now: i64, offset: UtcOffset|
                    is_resolution(run_command, offset, pair.1@) && #[trigger] timestamp_at(
                        now,
                        offset,
                    ) == Ok::<Seq<char>, Error>(pair.0@)
            },
            Err(e) => exists|now: i64, offset: UtcOffset|
                offset.wf() && #[trigger] timestamp_at(now, offset) == Err::<Seq<char>, Error>(e),
        },
{
    let (offset, errs) = get_utc_offset(cache, run_command);
    get_local_timestamp_with(offset, errs)
}

/// The timestamp of the current moment at `offset`, with the list `errs`
/// handed on as it is.
pub fn get_local_timestamp_with(offset: UtcOffset, errs: Errors) -> (res: Result<
    (String, Errors),
    Error,
>)
    ensures
        match res {
            Ok(pair) => pair.1@ == errs@ && has_layout(pair.0@) && exists|now: i64| #[trigger]
                timestamp_at(now, offset) == Ok::<Seq<char>, Error>(pair.0@),
            Err(e) => exists|now: i64| #[trigger]
                timestamp_at(now, offset) == Err::<Seq<char>, Error>(e),
        },
{
    match get_local_timestamp_from_offset_rfc3339(offset) {
        Ok(text) => Ok((text, errs)),
        Err(e) => Err(e),
    }
}

} // verus!
