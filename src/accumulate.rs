use vstd::prelude::*;

verus! {

/// The force and moment contributions gathered for one body during one tick.
///
/// Any number of contributors (gravity, thrust, drag, control surfaces) append
/// to it in any order; the integration step then takes everything at once,
/// which leaves the store empty for the next tick. A fold of the taken
/// contributions gives the force sum and the moment sum of the tick.
#[derive(Clone)]
pub struct Accumulator<V> {
    forces: Vec<V>,
    moments: Vec<V>,
}

impl<V> Accumulator<V> {
    /// The forces contributed since the last take, in order of arrival.
    pub closed spec fn forces(&self) -> Seq<V> {
        self.forces@
    }

    /// The moments contributed since the last take, in order of arrival.
    pub closed spec fn moments(&self) -> Seq<V> {
        self.moments@
    }

    /// An accumulator holding no contribution.
    pub fn new() -> (r: Self)
        ensures
            r.forces() == Seq::<V>::empty(),
            r.moments() == Seq::<V>::empty(),
    {
        Accumulator { forces: Vec::new(), moments: Vec::new() }
    }

    /// Whether no contribution is pending.
    pub fn is_clear(&self) -> (r: bool)
        ensures
            r == (self.forces().len() == 0 && self.moments().len() == 0),
    {
        self.forces.len() == 0 && self.moments.len() == 0
    }

    /// Adds a force with no moment (gravity, thrust through the centre of mass).
    pub fn add_force(&mut self, force: V)
        ensures
            final(self).forces() == old(self).forces().push(force),
            final(self).moments() == old(self).moments(),
    {
        self.forces.push(force);
    }

    /// Adds a moment with no force.
    pub fn add_moment(&mut self, moment: V)
        ensures
            final(self).forces() == old(self).forces(),
            final(self).moments() == old(self).moments().push(moment),
    {
        self.moments.push(moment);
    }

    /// Adds a force together with the moment it causes.
    pub fn add(&mut self, force: V, moment: V)
        ensures
            final(self).forces() == old(self).forces().push(force),
            final(self).moments() == old(self).moments().push(moment),
    {
        self.forces.push(force);
        self.moments.push(moment);
    }

    /// Adds a computed force and moment only when the computation was valid.
    ///
    /// An aerodynamic routine whose result is not a finite number (a
    /// normalised zero velocity) contributes nothing at all for the tick,
    /// neither its force nor its moment, rather than spoiling the sums.
    pub fn add_if_valid(&mut self, valid: bool, force: V, moment: V)
        ensures
            valid ==> final(self).forces() == old(self).forces().push(force),
            valid ==> final(self).moments() == old(self).moments().push(moment),
            !valid ==> final(self).forces() == old(self).forces(),
            !valid ==> final(self).moments() == old(self).moments(),
    {
        if valid {
            self.add(force, moment);
        }
    }

    /// Hands over every pending contribution, forces first, and leaves the
    /// accumulator empty, whatever it held before.
    ///
    /// This is the reset that ends each integration step: afterwards the force
    /// sum and the moment sum of the body are the sums over nothing, zero.
    pub fn take(&mut self) -> (r: (Vec<V>, Vec<V>))
        ensures
            r.0@ == old(self).forces(),
            r.1@ == old(self).moments(),
            final(self).forces() == Seq::<V>::empty(),
            final(self).moments() == Seq::<V>::empty(),
    {
        let mut forces: Vec<V> = Vec::new();
        let mut moments: Vec<V> = Vec::new();
        std::mem::swap(&mut forces, &mut self.forces);
        std::mem::swap(&mut moments, &mut self.moments);
        (forces, moments)
    }
}

} // verus!
