//! The builder: from a configuration document to registered workers.

use vstd::prelude::*;
use crate::config::{ConfigError, ConfigValue};
use crate::worker::{Worker, WorkerView, spec_worker};

verus! {

/// The full set of workers a configuration document describes, in document
/// order. Its build operation consumes it and yields the workers for the
/// caller to register with the runtime, in order; the caller stops at the
/// first registration the runtime refuses, so a partially applied
/// configuration never starts.
#[derive(Debug, Clone, PartialEq)]
pub struct Builder {
    workers: Vec<Worker>,
}

impl View for Builder {
    type V = Seq<WorkerView>;

    closed spec fn view(&self) -> Seq<WorkerView> {
        self.workers.deep_view()
    }
}

/// The worker list an array of configuration values decodes to, in order;
/// the leftmost failing worker decides the error.
pub open spec fn spec_workers(items: Seq<ConfigValue>) -> Result<Seq<WorkerView>, ConfigError>
    decreases items.len(),
{
    if items.len() == 0 {
        Ok(Seq::empty())
    } else {
        match spec_worker(items[0]) {
            Err(e) => Err(e),
            Ok(w) => match spec_workers(items.drop_first()) {
                Err(e) => Err(e),
                Ok(rest) => Ok(seq![w] + rest),
            },
        }
    }
}

/// The builder a configuration document decodes to: the workers under the
/// document's `workers` key, an absent or mistyped key reading as the empty
/// list (a valid, no-op scheduler).
pub open spec fn spec_builder(v: ConfigValue) -> Result<Seq<WorkerView>, ConfigError> {
    spec_workers(v.spec_items("workers"@))
}

impl Default for Builder {
    /// A builder over no workers at all.
    fn default() -> (r: Self)
        ensures
            r@ == Seq::<WorkerView>::empty(),
    {
        Builder::empty()
    }
}

impl Builder {
    /// Decodes a builder from a configuration document.
    pub fn new_from_value(v: &ConfigValue) -> (r: Result<Builder, ConfigError>)
        ensures
            match spec_builder(*v) {
                Ok(ws) => r matches Ok(b) && b@ == ws,
                Err(e) => r matches Err(e2) && e2 == e,
            },
    {
        match v.get("workers") {
            Some(c) => match c {
                ConfigValue::Arr(items) => match workers_from_values(items) {
                    Ok(workers) => Ok(Builder { workers }),
                    Err(e) => Err(e),
                },
                _ => Ok(Builder::empty()),
            },
            None => Ok(Builder::empty()),
        }
    }

    fn empty() -> (r: Builder)
        ensures
            r@ == Seq::<WorkerView>::empty(),
    {
        let workers: Vec<Worker> = Vec::new();
        proof {
            assert(workers.deep_view() =~= Seq::<WorkerView>::empty());
        }
        Builder { workers }
    }

    /// Consumes the builder and yields its workers in registration order.
    /// The caller hands each worker to the runtime in turn and aborts at the
    /// first registration the runtime refuses — registration is all or
    /// nothing, never best-effort.
    pub fn build(self) -> (workers: Vec<Worker>)
        ensures
            workers.deep_view() == self@,
    {
        self.workers
    }
}

fn workers_from_values(items: &Vec<ConfigValue>) -> (r: Result<Vec<Worker>, ConfigError>)
    ensures
        match spec_workers(items@) {
            Ok(ws) => r matches Ok(v) && v.deep_view() == ws,
            Err(e) => r matches Err(e2) && e2 == e,
        },
{
    proof {
        assert(items@.skip(0) =~= items@);
    }
    workers_from_values_at(items, 0)
}

fn workers_from_values_at(items: &Vec<ConfigValue>, i: usize) -> (r: Result<
    Vec<Worker>,
    ConfigError,
>)
    requires
        i <= items.len(),
    ensures
        match spec_workers(items@.skip(i as int)) {
            Ok(ws) => r matches Ok(v) && v.deep_view() == ws,
            Err(e) => r matches Err(e2) && e2 == e,
        },
    decreases items.len() - i,
{
    if i == items.len() {
        let out: Vec<Worker> = Vec::new();
        proof {
            assert(items@.skip(i as int) =~= Seq::<ConfigValue>::empty());
            assert(out.deep_view() =~= Seq::<WorkerView>::empty());
        }
        Ok(out)
    } else {
        proof {
            assert(items@.skip(i as int)[0] == items@[i as int]);
            assert(items@.skip(i as int).drop_first() =~= items@.skip(i as int + 1));
        }
        match Worker::new_from_value(&items[i]) {
            Err(e) => Err(e),
            Ok(w) => match workers_from_values_at(items, i + 1) {
                Err(e) => Err(e),
                Ok(rest) => {
                    let mut out = rest;
                    out.insert(0, w);
                    proof {
                        let ws = spec_workers(items@.skip(i as int))->Ok_0;
                        assert(out.deep_view() =~= ws);
                    }
                    Ok(out)
                },
            },
        }
    }
}

/// A document without a `workers` key decodes to the empty worker list: a
/// valid configuration describing a scheduler with nothing to do.
pub proof fn lemma_missing_workers_yields_no_workers(v: ConfigValue)
    requires
        !v.has_field("workers"@),
    ensures
        spec_builder(v) == Ok::<Seq<WorkerView>, ConfigError>(Seq::empty()),
{
    assert(v.spec_items("workers"@) =~= Seq::<ConfigValue>::empty());
}

/// Decoding is deterministic: the decoders' contracts pin their results to
/// `spec_builder`, so any two decodings of one configuration value are equal.
pub proof fn lemma_decode_deterministic(
    v: ConfigValue,
    a: Result<Seq<WorkerView>, ConfigError>,
    b: Result<Seq<WorkerView>, ConfigError>,
)
    requires
        a == spec_builder(v),
        b == spec_builder(v),
    ensures
        a == b,
{
}

} // verus!
