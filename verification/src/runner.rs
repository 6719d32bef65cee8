//! Fixture scenarios and the events they produce.

use vstd::prelude::*;
use crate::currency::Currency;
use crate::event::{opt_payment_id, CanonicalEvent};
use crate::payment::UUID_TEXT_LEN;
use crate::money::Money;
use crate::fixture::{
    is_failed_fixture, is_refunded_fixture, is_successful_fixture, FixtureEvent,
    FixtureEventView, Fixture,
};
use crate::text_map::text_eq;

verus! {

/// Runs fixture scenarios and collects resulting events.
pub struct SimulatorRunner {
    fixtures: Vec<Fixture>,
}

impl View for SimulatorRunner {
    type V = Seq<Fixture>;

    closed spec fn view(&self) -> Seq<Fixture> {
        self.fixtures@
    }
}

impl SimulatorRunner {
    pub fn new() -> (r: Self)
        ensures
            r@.len() == 0,
    {
        Self { fixtures: Vec::new() }
    }

    pub fn add_fixture(&mut self, fixture: Fixture)
        ensures
            final(self)@ == old(self)@.push(fixture),
    {
        self.fixtures.push(fixture);
    }

    /// The loaded fixtures, in the order they were added.
    pub fn fixtures(&self) -> (r: &Vec<Fixture>)
        ensures
            r@ == self@,
    {
        &self.fixtures
    }

    /// The events of every loaded fixture, fixture after fixture, each
    /// fixture's events as `Fixture::to_canonical_events` gives them: one
    /// event per fixture event, of its kind and amount, from the fixture's
    /// provider.
    pub fn collect_events(&self) -> (r: Vec<CanonicalEvent>)
        ensures
            r@.len() == flat_events(self@).len(),
            forall|j: int| 0 <= j < r@.len() ==> event_matches(#[trigger] r@[j], flat_events(self@)[j]),
            forall|j: int|
                0 <= j < r@.len() ==> ((#[trigger] r@[j]).payment_id matches Some(p) && p@.len()
                    == UUID_TEXT_LEN),
            forall|j: int, k: int|
                0 <= j < r@.len() && 0 <= k < r@.len() && flat_origins(self@)[j] == flat_origins(
                    self@,
                )[k] ==> opt_payment_id(#[trigger] r@[j].payment_id) == opt_payment_id(
                    #[trigger] r@[k].payment_id,
                ),
    {
        let mut all: Vec<CanonicalEvent> = Vec::new();
        let mut i: usize = 0;
        proof {
            lemma_flat_origins(self.fixtures@.take(0));
        }
        while i < self.fixtures.len()
            invariant
                i <= self.fixtures@.len(),
                all@.len() == flat_events(self.fixtures@.take(i as int)).len(),
                flat_origins(self.fixtures@.take(i as int)).len() == all@.len(),
                forall|j: int|
                    0 <= j < all@.len() ==> 0 <= #[trigger] flat_origins(
                        self.fixtures@.take(i as int),
                    )[j] < i,
                forall|j: int|
                    0 <= j < all@.len() ==> event_matches(
                        #[trigger] all@[j],
                        flat_events(self.fixtures@.take(i as int))[j],
                    ),
                forall|j: int|
                    0 <= j < all@.len() ==> ((#[trigger] all@[j]).payment_id matches Some(p) && p@.len()
                        == UUID_TEXT_LEN),
                forall|j: int, k: int|
                    0 <= j < all@.len() && 0 <= k < all@.len() && flat_origins(
                        self.fixtures@.take(i as int),
                    )[j] == flat_origins(self.fixtures@.take(i as int))[k] ==> opt_payment_id(
                        #[trigger] all@[j].payment_id,
                    ) == opt_payment_id(#[trigger] all@[k].payment_id),
            decreases self.fixtures.len() - i,
        {
            let ghost before = all@;
            let ghost f = self.fixtures@[i as int];
            let mut events = self.fixtures[i].to_canonical_events();
            let ghost new_events = events@;
            assert(self.fixtures@.take(i + 1).drop_last() =~= self.fixtures@.take(i as int));
            assert(self.fixtures@.take(i + 1).last() == f);
            all.append(&mut events);
            proof {
                let flat = flat_events(self.fixtures@.take(i + 1));
                let tail = f.events@.map_values(|e: FixtureEvent| (f.provider@, e@));
                assert(flat == flat_events(self.fixtures@.take(i as int)) + tail);
                let origins = flat_origins(self.fixtures@.take(i + 1));
                let old_origins = flat_origins(self.fixtures@.take(i as int));
                assert(origins == old_origins + Seq::new(f.events@.len(), |k: int| i as int));
                assert forall|j: int| 0 <= j < all@.len() implies 0 <= #[trigger] origins[j] < i + 1 by {
                    if j < before.len() {
                        assert(origins[j] == old_origins[j]);
                    }
                }
                assert forall|j: int| 0 <= j < all@.len() implies ((#[trigger] all@[j]).payment_id matches Some(p)
                    && p@.len() == UUID_TEXT_LEN) by {
                    if j >= before.len() {
                        assert(all@[j] == new_events[j - before.len()]);
                    } else {
                        assert(all@[j] == before[j]);
                    }
                }
                assert forall|j: int, k: int|
                    0 <= j < all@.len() && 0 <= k < all@.len() && origins[j] == origins[k] implies opt_payment_id(
                    #[trigger] all@[j].payment_id,
                ) == opt_payment_id(#[trigger] all@[k].payment_id) by {
                    if j >= before.len() && k >= before.len() {
                        assert(all@[j] == new_events[j - before.len()]);
                        assert(all@[k] == new_events[k - before.len()]);
                    } else if j < before.len() && k < before.len() {
                        assert(all@[j] == before[j]);
                        assert(all@[k] == before[k]);
                        assert(origins[j] == old_origins[j]);
                        assert(origins[k] == old_origins[k]);
                    } else if j < before.len() {
                        assert(origins[j] == old_origins[j]);
                        assert(origins[k] == i);
                    } else {
                        assert(origins[k] == old_origins[k]);
                        assert(origins[j] == i);
                    }
                }
                assert forall|j: int| 0 <= j < all@.len() implies event_matches(#[trigger] all@[j], flat[j]) by {
                    if j >= before.len() {
                        let k = j - before.len();
                        assert(all@[j] == new_events[k]);
                        assert(flat[j] == tail[k]);
                    } else {
                        assert(all@[j] == before[j]);
                    }
                }
            }
            i = i + 1;
        }
        assert(self.fixtures@.take(self.fixtures@.len() as int) =~= self.fixtures@);
        all
    }

    /// List available built-in fixtures: a successful payment of 50.00 USD,
    /// a failed one of 100.00 USD and a refunded one of 75.00 EUR.
    pub fn builtin_fixtures() -> (r: Vec<Fixture>)
        ensures
            r@.len() == 3,
            is_successful_fixture(r@[0], 5000, Currency::USD),
            is_failed_fixture(r@[1], 10000, Currency::USD),
            is_refunded_fixture(r@[2], 7500, Currency::EUR),
    {
        let a = Fixture::successful_payment(5000, Currency::USD);
        let b = Fixture::failed_payment(10000, Currency::USD);
        let c = Fixture::refunded_payment(7500, Currency::EUR);
        vec![a, b, c]
    }

    /// The built-in fixture with the given name, if there is one.
    pub fn find_builtin(name: &str) -> (r: Option<Fixture>)
        ensures
            name@ == "successful_payment"@ ==> (r matches Some(f) && is_successful_fixture(
                f,
                5000,
                Currency::USD,
            )),
            name@ == "failed_payment"@ ==> (r matches Some(f) && is_failed_fixture(
                f,
                10000,
                Currency::USD,
            )),
            name@ == "refunded_payment"@ ==> (r matches Some(f) && is_refunded_fixture(
                f,
                7500,
                Currency::EUR,
            )),
            name@ != "successful_payment"@ && name@ != "failed_payment"@ && name@
                != "refunded_payment"@ ==> r is None,
    {
        let mut fixtures = Self::builtin_fixtures();
        let mut i: usize = 0;
        let ghost all = fixtures@;
        while i < fixtures.len()
            invariant
                i <= fixtures@.len(),
                fixtures@ == all,
                all.len() == 3,
                is_successful_fixture(all[0], 5000, Currency::USD),
                is_failed_fixture(all[1], 10000, Currency::USD),
                is_refunded_fixture(all[2], 7500, Currency::EUR),
                forall|j: int| 0 <= j < i ==> all[j].name@ != name@,
            decreases fixtures.len() - i,
        {
            if text_eq(fixtures[i].name.as_str(), name) {
                proof {
                    reveal_strlit("successful_payment");
                    reveal_strlit("failed_payment");
                    reveal_strlit("refunded_payment");
                    assert("successful_payment"@.len() == 18);
                    assert("failed_payment"@.len() == 14);
                    assert("refunded_payment"@.len() == 16);
                }
                let f = fixtures.remove(i);
                return Some(f);
            }
            i = i + 1;
        }
        proof {
            assert(all[0].name@ != name@);
            assert(all[1].name@ != name@);
            assert(all[2].name@ != name@);
        }
        None
    }
}

/// Whether `f` is the built-in fixture named `name`.
pub open spec fn is_builtin_named(name: Seq<char>, f: Fixture) -> bool {
    if name == "successful_payment"@ {
        is_successful_fixture(f, 5000, Currency::USD)
    } else if name == "failed_payment"@ {
        is_failed_fixture(f, 10000, Currency::USD)
    } else if name == "refunded_payment"@ {
        is_refunded_fixture(f, 7500, Currency::EUR)
    } else {
        false
    }
}

/// The fixtures that a simulation runs: every built-in fixture when `all`
/// is set; otherwise the built-in fixture of the given name (an unknown
/// name is refused); otherwise a successful payment of 50.00 USD.
pub fn simulation_fixtures(all: bool, name: Option<&str>) -> (r: Result<Vec<Fixture>, String>)
    ensures
        all ==> (r matches Ok(v) && v@.len() == 3 && is_successful_fixture(
            v@[0],
            5000,
            Currency::USD,
        ) && is_failed_fixture(v@[1], 10000, Currency::USD) && is_refunded_fixture(
            v@[2],
            7500,
            Currency::EUR,
        )),
        !all && name is None ==> (r matches Ok(v) && v@.len() == 1 && is_successful_fixture(
            v@[0],
            5000,
            Currency::USD,
        )),
        !all && name is Some ==> match r {
            Ok(v) => v@.len() == 1 && is_builtin_named(name.unwrap()@, v@[0]),
            Err(m) => !(exists|f: Fixture| is_builtin_named(name.unwrap()@, f)) && m@
                == "fixture not found: "@ + name.unwrap()@,
        },
        !all && name is Some && (exists|f: Fixture| is_builtin_named(name.unwrap()@, f)) ==> r is Ok,
{
    if all {
        return Ok(SimulatorRunner::builtin_fixtures());
    }
    match name {
        Some(n) => match SimulatorRunner::find_builtin(n) {
            Some(f) => Ok(vec![f]),
            None => {
                let mut m = String::from_str("fixture not found: ");
                m.append(n);
                Err(m)
            },
        },
        None => Ok(vec![Fixture::successful_payment(5000, Currency::USD)]),
    }
}

/// The events of the fixtures, fixture after fixture, each with its
/// fixture's provider.
pub open spec fn flat_events(fixtures: Seq<Fixture>) -> Seq<(Seq<char>, FixtureEventView)>
    decreases fixtures.len(),
{
    if fixtures.len() == 0 {
        seq![]
    } else {
        let f = fixtures.last();
        flat_events(fixtures.drop_last()) + f.events@.map_values(|e: FixtureEvent| (f.provider@, e@))
    }
}

/// For each event of the fixtures, fixture after fixture, the position of
/// the fixture it comes from.
pub open spec fn flat_origins(fixtures: Seq<Fixture>) -> Seq<int>
    decreases fixtures.len(),
{
    if fixtures.len() == 0 {
        seq![]
    } else {
        flat_origins(fixtures.drop_last()) + Seq::new(
            fixtures.last().events@.len(),
            |k: int| fixtures.len() - 1,
        )
    }
}

proof fn lemma_flat_origins(fixtures: Seq<Fixture>)
    ensures
        flat_origins(fixtures).len() == flat_events(fixtures).len(),
        forall|j: int|
            0 <= j < flat_origins(fixtures).len() ==> 0 <= #[trigger] flat_origins(fixtures)[j]
                < fixtures.len(),
    decreases fixtures.len(),
{
    if fixtures.len() > 0 {
        lemma_flat_origins(fixtures.drop_last());
    }
}

/// A canonical event made from a fixture event of a provider: of its kind,
/// with its amount, from that provider.
pub open spec fn event_matches(e: CanonicalEvent, source: (Seq<char>, FixtureEventView)) -> bool {
    &&& e.kind == source.1.kind
    &&& e.amount == Some(Money { amount: source.1.amount_minor, currency: source.1.currency })
    &&& e.provider_id matches Some(p) && p@ == source.0
}

impl Default for SimulatorRunner {
    fn default() -> (r: Self)
        ensures
            r@.len() == 0,
    {
        Self::new()
    }
}

} // verus!
