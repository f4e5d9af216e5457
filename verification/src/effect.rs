//! What the rules want done. The rules decide; whoever runs a plan carries its effects out one by
//! one, in order.

use vstd::prelude::*;

use crate::event::Event;
use crate::state::RoomStateUpdate;

verus! {

/// A command to a group of lamps or to one lamp. `S` is the type of its texts.
#[derive(Clone, Debug)]
pub enum LightCommand<S = String> {
    TurnOnGroup {
        group: S,
        brightness: Option<u8>,
        color_temp_mired: Option<u16>,
        transition: Option<u32>,
    },
    TurnOffGroup { group: S, transition: Option<u32> },
    TurnOnIeee {
        ieee: S,
        brightness: Option<u8>,
        color_temp_mired: Option<u16>,
        transition: Option<u32>,
    },
    TurnOffIeee { ieee: S, transition: Option<u32> },
    PushCircadianGroup { group: S, brightness: u8, color_temp_mired: u16, transition: u32 },
    PushCircadianIeee { ieee: S, brightness: u8, color_temp_mired: Option<u16>, transition: u32 },
    RecallSceneGroup { group: S, scene_id: u16 },
    PushBrightnessOnlyGroup { group: S, brightness: u8, transition: u32 },
}

impl View for LightCommand<String> {
    type V = LightCommand<Seq<char>>;

    open spec fn view(&self) -> LightCommand<Seq<char>> {
        match self {
            LightCommand::TurnOnGroup { group, brightness, color_temp_mired, transition } =>
                LightCommand::TurnOnGroup {
                    group: group@,
                    brightness: *brightness,
                    color_temp_mired: *color_temp_mired,
                    transition: *transition,
                },
            LightCommand::TurnOffGroup { group, transition } => LightCommand::TurnOffGroup {
                group: group@,
                transition: *transition,
            },
            LightCommand::TurnOnIeee { ieee, brightness, color_temp_mired, transition } =>
                LightCommand::TurnOnIeee {
                    ieee: ieee@,
                    brightness: *brightness,
                    color_temp_mired: *color_temp_mired,
                    transition: *transition,
                },
            LightCommand::TurnOffIeee { ieee, transition } => LightCommand::TurnOffIeee {
                ieee: ieee@,
                transition: *transition,
            },
            LightCommand::PushCircadianGroup { group, brightness, color_temp_mired, transition } =>
                LightCommand::PushCircadianGroup {
                    group: group@,
                    brightness: *brightness,
                    color_temp_mired: *color_temp_mired,
                    transition: *transition,
                },
            LightCommand::PushCircadianIeee { ieee, brightness, color_temp_mired, transition } =>
                LightCommand::PushCircadianIeee {
                    ieee: ieee@,
                    brightness: *brightness,
                    color_temp_mired: *color_temp_mired,
                    transition: *transition,
                },
            LightCommand::RecallSceneGroup { group, scene_id } => LightCommand::RecallSceneGroup {
                group: group@,
                scene_id: *scene_id,
            },
            LightCommand::PushBrightnessOnlyGroup { group, brightness, transition } =>
                LightCommand::PushBrightnessOnlyGroup {
                    group: group@,
                    brightness: *brightness,
                    transition: *transition,
                },
        }
    }
}

/// One thing to be done. `S` is the type of its texts.
#[derive(Clone, Debug)]
pub enum Effect<S = String> {
    /// Change what is known of a room.
    Update { room_id: S, update: RoomStateUpdate },
    /// Send a command to lamps. Where a required command cannot be sent, the rest of the plan is
    /// given up.
    Publish { command: LightCommand<S>, required: bool },
    /// Tell the event bus.
    Emit { event: Event<S> },
}

impl View for Effect<String> {
    type V = Effect<Seq<char>>;

    open spec fn view(&self) -> Effect<Seq<char>> {
        match self {
            Effect::Update { room_id, update } => Effect::Update {
                room_id: room_id@,
                update: *update,
            },
            Effect::Publish { command, required } => Effect::Publish {
                command: command@,
                required: *required,
            },
            Effect::Emit { event } => Effect::Emit { event: event@ },
        }
    }
}

/// Effects in the order in which they are to be carried out.
#[derive(Clone, Debug)]
pub struct Plan {
    pub effects: Vec<Effect>,
}

impl View for Plan {
    type V = Seq<Effect<Seq<char>>>;

    open spec fn view(&self) -> Seq<Effect<Seq<char>>> {
        self.effects@.map_values(|e: Effect| e@)
    }
}

/// The effect of changing what is known of a room.
pub open spec fn updates(room_id: Seq<char>, update: RoomStateUpdate) -> Effect<Seq<char>> {
    Effect::Update { room_id, update }
}

/// The effect of sending a command whose failure ends the plan.
pub open spec fn publishes(command: LightCommand<Seq<char>>) -> Effect<Seq<char>> {
    Effect::Publish { command, required: true }
}

/// The effect of sending a command whose failure changes nothing.
pub open spec fn tries(command: LightCommand<Seq<char>>) -> Effect<Seq<char>> {
    Effect::Publish { command, required: false }
}

/// The effect of telling the event bus.
pub open spec fn emits(event: Event<Seq<char>>) -> Effect<Seq<char>> {
    Effect::Emit { event }
}

/// The same command for each of several lamps, one after the other.
pub open spec fn for_each_light(
    lights: Seq<String>,
    command: spec_fn(Seq<char>) -> Effect<Seq<char>>,
) -> Seq<Effect<Seq<char>>> {
    lights.map_values(|ieee: String| command(ieee@))
}

impl Plan {
    pub fn new() -> (r: Self)
        ensures
            r@ == Seq::<Effect<Seq<char>>>::empty(),
    {
        let r = Plan { effects: Vec::new() };
        assert(r@ =~= Seq::<Effect<Seq<char>>>::empty());
        r
    }

    pub fn push(&mut self, effect: Effect)
        ensures
            final(self)@ == old(self)@.push(effect@),
    {
        self.effects.push(effect);
        assert(self@ =~= old(self)@.push(effect@));
    }

    /// Go on with the effects of another plan.
    pub fn append(&mut self, rest: Plan)
        ensures
            final(self)@ == old(self)@ + rest@,
    {
        let mut more: Vec<Effect> = rest.effects;
        self.effects.append(&mut more);
        assert(self@ =~= old(self)@ + rest@);
    }

    /// Change what is known of a room.
    pub fn update(&mut self, room_id: &str, update: RoomStateUpdate)
        ensures
            final(self)@ == old(self)@.push(updates(room_id@, update)),
    {
        self.push(Effect::Update { room_id: room_id.to_owned(), update });
    }

    /// Send a command; where that fails, give the rest of the plan up.
    pub fn publish(&mut self, command: LightCommand)
        ensures
            final(self)@ == old(self)@.push(publishes(command@)),
    {
        self.push(Effect::Publish { command, required: true });
    }

    /// Send a command; go on where that fails.
    pub fn attempt(&mut self, command: LightCommand)
        ensures
            final(self)@ == old(self)@.push(tries(command@)),
    {
        self.push(Effect::Publish { command, required: false });
    }

    /// Tell the event bus.
    pub fn emit(&mut self, event: Event)
        ensures
            final(self)@ == old(self)@.push(emits(event@)),
    {
        self.push(Effect::Emit { event });
    }

    /// Turn each of `lights` on; `required` tells whether a failure ends the plan.
    pub fn turn_on_each(
        &mut self,
        lights: &Vec<String>,
        brightness: Option<u8>,
        color_temp_mired: Option<u16>,
        transition: Option<u32>,
        required: bool,
    )
        ensures
            final(self)@ == old(self)@ + turn_on_all(
                lights@,
                brightness,
                color_temp_mired,
                transition,
                required,
            ),
    {
        let ghost before = self@;
        let ghost all = turn_on_all(lights@, brightness, color_temp_mired, transition, required);
        let mut i: usize = 0;
        while i < lights.len()
            invariant
                i <= lights@.len(),
                all == turn_on_all(lights@, brightness, color_temp_mired, transition, required),
                self@ == before + all.take(i as int),
            decreases lights.len() - i,
        {
            let command = LightCommand::TurnOnIeee {
                ieee: lights[i].clone(),
                brightness,
                color_temp_mired,
                transition,
            };
            self.push(Effect::Publish { command, required });
            i = i + 1;
            assert(self@ =~= before + all.take(i as int));
        }
        assert(all.take(i as int) =~= all);
    }

    /// Turn each of `lights` off; `required` tells whether a failure ends the plan.
    pub fn turn_off_each(&mut self, lights: &Vec<String>, transition: Option<u32>, required: bool)
        ensures
            final(self)@ == old(self)@ + turn_off_all(lights@, transition, required),
    {
        let ghost before = self@;
        let ghost all = turn_off_all(lights@, transition, required);
        let mut i: usize = 0;
        while i < lights.len()
            invariant
                i <= lights@.len(),
                all == turn_off_all(lights@, transition, required),
                self@ == before + all.take(i as int),
            decreases lights.len() - i,
        {
            let command = LightCommand::TurnOffIeee { ieee: lights[i].clone(), transition };
            self.push(Effect::Publish { command, required });
            i = i + 1;
            assert(self@ =~= before + all.take(i as int));
        }
        assert(all.take(i as int) =~= all);
    }
}

/// Every one of the lamps `ids` is turned on with the same values; failures change nothing.
pub open spec fn turn_on_ids(
    ids: Seq<Seq<char>>,
    brightness: Option<u8>,
    color_temp_mired: Option<u16>,
    transition: Option<u32>,
) -> Seq<Effect<Seq<char>>> {
    ids.map_values(
        |ieee: Seq<char>|
            tries(
                LightCommand::TurnOnIeee { ieee, brightness, color_temp_mired, transition },
            ),
    )
}

/// Every one of `lights` is turned on with the same values.
pub open spec fn turn_on_all(
    lights: Seq<String>,
    brightness: Option<u8>,
    color_temp_mired: Option<u16>,
    transition: Option<u32>,
    required: bool,
) -> Seq<Effect<Seq<char>>> {
    for_each_light(
        lights,
        |ieee: Seq<char>|
            Effect::Publish {
                command: LightCommand::TurnOnIeee { ieee, brightness, color_temp_mired, transition },
                required,
            },
    )
}

/// Every one of `lights` is turned off.
pub open spec fn turn_off_all(
    lights: Seq<String>,
    transition: Option<u32>,
    required: bool,
) -> Seq<Effect<Seq<char>>> {
    for_each_light(
        lights,
        |ieee: Seq<char>|
            Effect::Publish { command: LightCommand::TurnOffIeee { ieee, transition }, required },
    )
}

/// What two lists together hold is what either of them holds.
pub proof fn lemma_in_either<T>(a: Seq<T>, b: Seq<T>, x: T)
    ensures
        (a + b).contains(x) <==> a.contains(x) || b.contains(x),
{
    if (a + b).contains(x) {
        let k = (a + b).index_of(x);
        assert((a + b)[k] == x);
        if k < a.len() {
            assert(a[k] == x);
        } else {
            assert(b[k - a.len()] == x);
        }
    }
    if a.contains(x) {
        let k = a.index_of(x);
        assert((a + b)[k] == x);
    }
    if b.contains(x) {
        let k = b.index_of(x);
        assert((a + b)[a.len() + k] == x);
    }
}

} // verus!
