//! The refresh scheduler: one decision per tick, from the key pressed (if
//! any) to the next state and what to do.
use vstd::prelude::*;

use crate::config::{create_url, departures_url, ConfigStructure};
use crate::json::Json;
use crate::pipeline::{metadata_of, process_metadata, process_tables, row_views, table_of, DisplayRow};

verus! {

/// What a key press asks for.
#[derive(Clone, Copy, Debug, PartialEq, Eq, Structural)]
pub enum KeyCommand {
    /// No key, or a key with no meaning: the tick timed out.
    Idle,
    Quit,
    NextStation,
}

/// What the loop does after a decision.
#[derive(Debug)]
pub enum Action {
    /// Leave the loop.
    Quit,
    /// Fetch this URL, hand the outcome to `complete_fetch`, then render.
    Fetch(String),
    /// Render from the snapshot held.
    Render,
}

/// The command a key stands for: `q` quits, `n` moves to the next station.
pub fn command_of_key(key: char) -> (r: KeyCommand)
    ensures
        r == (if key == 'q' {
            KeyCommand::Quit
        } else if key == 'n' {
            KeyCommand::NextStation
        } else {
            KeyCommand::Idle
        }),
{
    if key == 'q' {
        KeyCommand::Quit
    } else if key == 'n' {
        KeyCommand::NextStation
    } else {
        KeyCommand::Idle
    }
}

/// The station after `i` of `n`, wrapping from the last to the first.
pub open spec fn advance_index(i: int, n: int) -> int {
    if i >= n - 1 {
        0
    } else {
        i + 1
    }
}

/// The index of the station after `current` among `count` stations.
pub fn advance(current: usize, count: usize) -> (r: usize)
    requires
        current < count,
    ensures
        r == advance_index(current as int, count as int),
        r < count,
{
    if current >= count - 1 {
        0
    } else {
        current + 1
    }
}

/// The scheduler's state between two ticks.
pub struct RefreshState {
    /// Index into the configured stations.
    pub current_station: usize,
    /// Ticks since the last fetch that succeeded.
    pub ticks: u64,
    /// The last payload fetched; `Null` before the first.
    pub snapshot: Json,
    /// The header text, taken from the snapshot.
    pub metadata: String,
}

/// The station after a command.
pub open spec fn station_after(cmd: KeyCommand, station: int, count: int) -> int {
    if cmd is NextStation {
        advance_index(station, count)
    } else {
        station
    }
}

/// The tick count after a command: a station change marks the snapshot stale.
pub open spec fn ticks_after(cmd: KeyCommand, ticks: int, refresh_rate: int) -> int {
    if cmd is NextStation {
        refresh_rate
    } else {
        ticks
    }
}

/// Whether a tick with this command fetches.
pub open spec fn fetch_due(cmd: KeyCommand, ticks: int, refresh_rate: int) -> bool {
    ticks_after(cmd, ticks, refresh_rate) >= refresh_rate
}

/// The tick count after a tick with this command, before any fetch completes.
pub open spec fn ticks_next(cmd: KeyCommand, ticks: int, refresh_rate: int) -> int {
    let t = ticks_after(cmd, ticks, refresh_rate);
    if t >= refresh_rate {
        t
    } else {
        t + 1
    }
}

/// The tick count after `k` ticks with no key pressed and no fetch completed.
pub open spec fn idle_ticks(ticks: int, refresh_rate: int, k: nat) -> int
    decreases k,
{
    if k == 0 {
        ticks
    } else {
        ticks_next(KeyCommand::Idle, idle_ticks(ticks, refresh_rate, (k - 1) as nat), refresh_rate)
    }
}

/// With no key pressed, counting from a completed fetch, the next `refresh_rate`
/// ticks render and the one after fetches; the station stays the same.
pub proof fn lemma_idle_cadence(refresh_rate: int, k: nat, station: int, count: int)
    requires
        0 <= k <= refresh_rate,
    ensures
        idle_ticks(0, refresh_rate, k) == k,
        fetch_due(KeyCommand::Idle, idle_ticks(0, refresh_rate, k), refresh_rate) <==> k
            == refresh_rate,
        station_after(KeyCommand::Idle, station, count) == station,
    decreases k,
{
    if k > 0 {
        lemma_idle_cadence(refresh_rate, (k - 1) as nat, station, count);
    }
}

impl RefreshState {
    /// The station index is in range and the tick count never passes the refresh rate.
    pub open spec fn wf(&self, config: &ConfigStructure) -> bool {
        &&& self.current_station < config.station_id@.len()
        &&& self.ticks <= config.refresh_rate
    }

    /// The state before the first tick: first station, snapshot stale, so the
    /// first tick fetches.
    pub fn new(config: &ConfigStructure) -> (r: RefreshState)
        requires
            config.valid(),
        ensures
            r.wf(config),
            r.current_station == 0,
            r.ticks == config.refresh_rate,
            r.snapshot is Null,
            r.metadata@ == Seq::<char>::empty(),
    {
        RefreshState {
            current_station: 0,
            ticks: config.refresh_rate,
            snapshot: Json::Null,
            metadata: String::new(),
        }
    }

    /// One tick's decision. The command is applied first; then, when the
    /// snapshot is due (the tick count has reached the refresh rate), the
    /// current station's URL is to be fetched; otherwise the tick is counted.
    pub fn step(&mut self, config: &ConfigStructure, cmd: KeyCommand) -> (r: Action)
        requires
            old(self).wf(config),
        ensures
            final(self).wf(config),
            cmd is Quit ==> r is Quit && *final(self) == *old(self),
            !(cmd is Quit) ==> {
                let station = station_after(
                    cmd,
                    old(self).current_station as int,
                    config.station_id@.len() as int,
                );
                &&& final(self).current_station == station
                &&& final(self).snapshot == old(self).snapshot
                &&& final(self).metadata == old(self).metadata
                &&& final(self).ticks == ticks_next(cmd, old(self).ticks as int, config.refresh_rate as int)
                &&& fetch_due(cmd, old(self).ticks as int, config.refresh_rate as int) ==> (r matches Action::Fetch(
                    url,
                ) && url@ == departures_url(
                    config.source@,
                    config.station_id@[station] as int,
                    config.duration as int,
                ))
                &&& !fetch_due(cmd, old(self).ticks as int, config.refresh_rate as int) ==> r is Render
            },
    {
        match cmd {
            KeyCommand::Quit => {
                return Action::Quit;
            },
            KeyCommand::NextStation => {
                self.current_station = advance(self.current_station, config.station_id.len());
                self.ticks = config.refresh_rate;
            },
            KeyCommand::Idle => {},
        }
        if self.ticks >= config.refresh_rate {
            let id = config.station_id[self.current_station];
            Action::Fetch(create_url(config.source.as_str(), id, config.duration))
        } else {
            self.ticks = self.ticks + 1;
            Action::Render
        }
    }

    /// Takes the outcome of a fetch. `Null` stands for a failed fetch: the
    /// snapshot is kept and the tick count is left as it was, so the next
    /// tick tries again. Any other payload becomes the snapshot, restarts the
    /// count and gives the header text.
    pub fn complete_fetch(&mut self, config: &ConfigStructure, result: Json)
        requires
            old(self).wf(config),
        ensures
            final(self).wf(config),
            result is Null ==> *final(self) == *old(self),
            !(result is Null) ==> {
                &&& final(self).current_station == old(self).current_station
                &&& final(self).ticks == 0
                &&& final(self).metadata@ == metadata_of(result)
                &&& final(self).snapshot == result
            },
    {
        if !result.is_null() {
            self.metadata = process_metadata(&result);
            self.snapshot = result;
            self.ticks = 0;
        }
    }

    /// The table for the snapshot held, as seen at `now` (seconds since the epoch).
    pub fn rows(&self, config: &ConfigStructure, now: i64) -> (r: Vec<DisplayRow>)
        ensures
            row_views(r@) == table_of(self.snapshot, config.lines@, config.show_cancelled, now as int),
    {
        process_tables(&self.snapshot, &config.lines, config.show_cancelled, now)
    }
}

} // verus!
