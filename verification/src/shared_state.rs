//! A small shared state and typed access to its parts, for handing to closures.
use vstd::prelude::*;

verus! {

/// What a person does.
#[derive(Debug, Clone, Copy, PartialEq, Eq, Structural, PartialOrd, Ord, Hash)]
pub enum Occupation {
    Programmer,
    Artist,
    Musician,
    SoundDesigner,
    GameDesigner,
    Writer,
}

/// A job title.
#[derive(Debug, Clone, Copy, PartialEq, Eq, Structural, PartialOrd, Ord, Hash)]
pub enum JobTitle {
    Programmer,
    Artist,
    Designer,
    Writer,
}

/// An access level; the lowest is the default.
#[derive(Debug, Clone, Copy, PartialEq, Eq, Structural, PartialOrd, Ord, Hash)]
pub enum Clearance {
    Level0,
    Level1,
    Level2,
    Restricted,
}

impl Default for Clearance {
    fn default() -> (r: Clearance)
        ensures
            r == Clearance::Level0,
    {
        Clearance::Level0
    }
}

/// A person's name, age and occupation.
pub struct State {
    name: String,
    age: u8,
    occupation: Occupation,
}

impl State {
    /// The name.
    pub closed spec fn spec_name(&self) -> Seq<char> {
        self.name@
    }

    /// The age.
    pub closed spec fn spec_age(&self) -> u8 {
        self.age
    }

    /// The occupation.
    pub closed spec fn spec_occupation(&self) -> Occupation {
        self.occupation
    }

    /// A state with the given parts.
    pub fn new(name: String, age: u8, occupation: Occupation) -> (r: Self)
        ensures
            r.spec_name() == name@,
            r.spec_age() == age,
            r.spec_occupation() == occupation,
    {
        State { name, age, occupation }
    }
}

/// A part of a [`State`], found by its type.
pub trait StateFilter: Sized {
    /// Whether `value` is the part of `state` of this type.
    spec fn spec_is_part(state: &State, value: &Self) -> bool;

    /// The part of `state` of this type.
    fn get_value(state: &State) -> (r: &Self)
        ensures
            Self::spec_is_part(state, r),
    ;
}

impl StateFilter for String {
    open spec fn spec_is_part(state: &State, value: &String) -> bool {
        value@ == state.spec_name()
    }

    fn get_value(state: &State) -> (r: &String) {
        &state.name
    }
}

impl StateFilter for u8 {
    open spec fn spec_is_part(state: &State, value: &u8) -> bool {
        *value == state.spec_age()
    }

    fn get_value(state: &State) -> (r: &u8) {
        &state.age
    }
}

impl StateFilter for Occupation {
    open spec fn spec_is_part(state: &State, value: &Occupation) -> bool {
        *value == state.spec_occupation()
    }

    fn get_value(state: &State) -> (r: &Occupation) {
        &state.occupation
    }
}

/// A function together with the arguments it owns between calls.
pub struct ArgInjector<Args, F> {
    pub args: Args,
    pub function: F,
}

impl<Args, F> ArgInjector<Args, F> {
    /// The function `function` with its own arguments `args`.
    pub fn new(args: Args, function: F) -> (r: Self)
        ensures
            r.args == args,
            r.function == function,
    {
        ArgInjector { args, function }
    }
}

/// Running a function with its own arguments followed by parts of a [`State`].
pub trait ArgInject<Inject, Args> {
    /// Whether the function accepts every argument list it can be called with here.
    spec fn spec_ready(&self) -> bool;

    /// Calls the function with its own arguments, then the parts of `state` that
    /// its remaining parameters ask for.
    fn exec(&mut self, state: &State)
        requires
            old(self).spec_ready(),
    ;
}

impl<I0, I1, T0: StateFilter, T1: StateFilter, F: Fn(&mut I0, &mut I1, &T0, &T1)> ArgInject<(I0, I1), (T0, T1)> for ArgInjector<(I0, I1), F> {
    open spec fn spec_ready(&self) -> bool {
        forall|args: (&mut I0, &mut I1, &T0, &T1)| call_requires(self.function, args)
    }

    fn exec(&mut self, state: &State)
        ensures
            final(self).function == old(self).function,
            exists|a0: &mut I0, a1: &mut I1, p0: &T0, p1: &T1|
                *a0 == old(self).args.0 && *final(a0) == final(self).args.0 && *a1 == old(self).args.1
                    && *final(a1) == final(self).args.1 && T0::spec_is_part(state, p0)
                    && T1::spec_is_part(state, p1) && #[trigger] call_ensures(old(self).function, (a0, a1, p0, p1), ()),
    {
        let (arg0, arg1) = &mut self.args;
        let arg2 = T0::get_value(state);
        let arg3 = T1::get_value(state);
        (self.function)(arg0, arg1, arg2, arg3);
    }
}

impl<I0, I1, I2, T0: StateFilter, T1: StateFilter, F: Fn(&mut I0, &mut I1, &mut I2, &T0, &T1)> ArgInject<(I0, I1, I2), (T0, T1)> for ArgInjector<(I0, I1, I2), F> {
    open spec fn spec_ready(&self) -> bool {
        forall|args: (&mut I0, &mut I1, &mut I2, &T0, &T1)| call_requires(self.function, args)
    }

    fn exec(&mut self, state: &State)
        ensures
            final(self).function == old(self).function,
            exists|a0: &mut I0, a1: &mut I1, a2: &mut I2, p0: &T0, p1: &T1|
                *a0 == old(self).args.0 && *final(a0) == final(self).args.0 && *a1 == old(self).args.1
                    && *final(a1) == final(self).args.1 && *a2 == old(self).args.2 && *final(a2)
                    == final(self).args.2 && T0::spec_is_part(state, p0) && T1::spec_is_part(state, p1)
                    && #[trigger] call_ensures(old(self).function, (a0, a1, a2, p0, p1), ()),
    {
        let (arg0, arg1, arg2) = &mut self.args;
        let arg3 = T0::get_value(state);
        let arg4 = T1::get_value(state);
        (self.function)(arg0, arg1, arg2, arg3, arg4);
    }
}

} // verus!
