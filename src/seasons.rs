use vstd::prelude::*;

verus! {

/// The four seasons, each bound to one sensor region of the planet's orbit.
#[derive(Clone, Copy, Debug, PartialEq, Eq, Structural)]
pub enum Seasons {
    Spring,
    Summer,
    Autumn,
    Winter,
}

impl Default for Seasons {
    fn default() -> (r: Seasons)
        ensures
            r == Seasons::Spring,
    {
        Seasons::Spring
    }
}

/// The four seasons in the order in which their sensors are placed.
pub open spec fn season_order() -> Seq<Seasons> {
    seq![Seasons::Spring, Seasons::Summer, Seasons::Autumn, Seasons::Winter]
}

impl Seasons {
    /// The quadrant of the orbit ring that holds the season's sensor, as the
    /// signs of its x and z offsets from the ring's centre.
    pub open spec fn quadrant_spec(self) -> (i8, i8) {
        match self {
            Seasons::Spring => (1i8, 1i8),
            Seasons::Summer => (1i8, -1i8),
            Seasons::Autumn => (-1i8, 1i8),
            Seasons::Winter => (-1i8, -1i8),
        }
    }

    pub fn sensor_quadrant(&self) -> (r: (i8, i8))
        ensures
            r == self.quadrant_spec(),
    {
        match self {
            Seasons::Spring => (1, 1),
            Seasons::Summer => (1, -1),
            Seasons::Autumn => (-1, 1),
            Seasons::Winter => (-1, -1),
        }
    }
}

/// All four seasons, in sensor order.
pub fn all_seasons() -> (r: Vec<Seasons>)
    ensures
        r@ == season_order(),
{
    let r = vec![Seasons::Spring, Seasons::Summer, Seasons::Autumn, Seasons::Winter];
    assert(r@ =~= season_order());
    r
}

/// The seasons to report, in order, given for each season sensor the answer
/// of the physics engine's intersection query with the planet: a season is
/// reported when that answer is `Some(true)`.
pub open spec fn reported(contacts: Seq<(Seasons, Option<bool>)>) -> Seq<Seasons> {
    contacts.filter(|p: (Seasons, Option<bool>)| p.1 == Some(true)).map_values(
        |p: (Seasons, Option<bool>)| p.0,
    )
}

/// Picks out the seasons whose sensor currently intersects the planet. Every
/// intersecting sensor is reported, each time this is called.
pub fn seasons_in_contact(contacts: &Vec<(Seasons, Option<bool>)>) -> (r: Vec<Seasons>)
    ensures
        r@ == reported(contacts@),
        r@.len() <= contacts@.len(),
{
    let mut r: Vec<Seasons> = Vec::new();
    let mut i: usize = 0;
    while i < contacts.len()
        invariant
            i <= contacts@.len(),
            r@ == reported(contacts@.subrange(0, i as int)),
            r@.len() <= i,
        decreases contacts@.len() - i,
    {
        let (season, hit) = contacts[i];
        proof {
            let pred = |p: (Seasons, Option<bool>)| p.1 == Some(true);
            let prefix = contacts@.subrange(0, i as int);
            assert(contacts@.subrange(0, i + 1) =~= prefix.push(contacts@[i as int]));
            prefix.lemma_filter_push(contacts@[i as int], pred);
            prefix.lemma_filter_len(pred);
        }
        if hit == Some(true) {
            r.push(season);
        }
        assert(r@ =~= reported(contacts@.subrange(0, i + 1)));
        i = i + 1;
    }
    assert(contacts@.subrange(0, contacts@.len() as int) =~= contacts@);
    r
}

} // verus!
