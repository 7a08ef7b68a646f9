//! Telemetry as an explicit value: a named, filtered collector of structured
//! log lines, constructed at process start and passed by reference to
//! whatever needs it — no process-wide implicit logging state. Records are
//! dropped until the collector is initialized, and initializing twice is
//! ruled out.

use vstd::prelude::*;

verus! {

/// Mathematical model of a telemetry collector.
#[verifier::ext_equal]
pub ghost struct TelemetryModel {
    pub name: Seq<char>,
    pub env_filter: Seq<char>,
    pub records: Seq<Seq<char>>,
    pub initialized: bool,
}

/// A collector of structured log lines.
pub struct Telemetry {
    name: String,
    env_filter: String,
    records: Vec<String>,
    initialized: bool,
}

impl View for Telemetry {
    type V = TelemetryModel;

    closed spec fn view(&self) -> TelemetryModel {
        TelemetryModel {
            name: self.name@,
            env_filter: self.env_filter@,
            records: self.records@.map_values(|r: String| r@),
            initialized: self.initialized,
        }
    }
}

/// A fresh, not yet initialized collector with the given name and filter.
pub fn get_subscriber(name: String, env_filter: String) -> (t: Telemetry)
    ensures
        t@ == (TelemetryModel {
            name: name@,
            env_filter: env_filter@,
            records: Seq::<Seq<char>>::empty(),
            initialized: false,
        }),
{
    let t = Telemetry { name, env_filter, records: Vec::new(), initialized: false };
    proof {
        assert(t@.records =~= Seq::<Seq<char>>::empty());
        assert(t@ =~= (TelemetryModel {
            name: t@.name,
            env_filter: t@.env_filter,
            records: Seq::<Seq<char>>::empty(),
            initialized: false,
        }));
    }
    t
}

/// Marks the collector initialized, after which it accepts records. A
/// collector is initialized at most once.
pub fn init_subscriber(t: &mut Telemetry)
    requires
        !old(t)@.initialized,
    ensures
        final(t)@ == (TelemetryModel { initialized: true, ..old(t)@ }),
{
    t.initialized = true;
    proof {
        assert(t@ =~= (TelemetryModel { initialized: true, ..old(t)@ }));
    }
}

impl Telemetry {
    /// Accepts one record; a line handed to an uninitialized collector is
    /// dropped.
    pub fn record(&mut self, line: String)
        ensures
            old(self)@.initialized ==> final(self)@ == (TelemetryModel {
                records: old(self)@.records.push(line@),
                ..old(self)@
            }),
            !old(self)@.initialized ==> final(self)@ == old(self)@,
    {
        if self.initialized {
            self.records.push(line);
            proof {
                assert(self@.records =~= old(self)@.records.push(line@));
                assert(self@ =~= (TelemetryModel {
                    records: old(self)@.records.push(line@),
                    ..old(self)@
                }));
            }
        }
    }

    /// How many records the collector holds.
    pub fn record_count(&self) -> (n: usize)
        ensures
            n == self@.records.len(),
    {
        self.records.len()
    }

    /// The `i`-th record.
    pub fn record_at(&self, i: usize) -> (r: &String)
        requires
            i < self@.records.len(),
        ensures
            r@ == self@.records[i as int],
    {
        &self.records[i]
    }
}

} // verus!
