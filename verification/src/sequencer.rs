//! The animation sequencer: a pure state transition from key events to
//! ordered track commands.
//!
//! A configured trigger fires on the first key-down only: the pressed-key
//! set suppresses auto-repeat until the key is released again. For each
//! matching action, the first item of its sequence replaces the track's
//! content and every later item is enqueued with a delay equal to the
//! *previous* item's length; an optional idle animation is enqueued last.
//! Modifier-qualified shortcuts bypass the action table entirely.

use std::collections::HashSet;

use vstd::prelude::*;

use crate::anim::{AnimationState, CommandView};
use crate::config::{Action, AnimationItem, Config};

verus! {

broadcast use vstd::std_specs::hash::group_hash_axioms;

/// The shift modifier bit of the held-modifiers bitset.
pub const MOD_SHIFT: u32 = 1;

/// The control modifier bit of the held-modifiers bitset.
pub const MOD_CTRL: u32 = 2;

/// The alt modifier bit of the held-modifiers bitset.
pub const MOD_ALT: u32 = 4;

/// The logo modifier bit of the held-modifiers bitset.
pub const MOD_LOGO: u32 = 8;

/// The key code of the equals key in the library's key encoding.
pub const KEY_EQUALS: u32 = 61;

/// The key code of the minus key in the library's key encoding.
pub const KEY_MINUS: u32 = 45;

/// An item's length, defaulting to zero when absent. It is used only as
/// the delay offset of the item queued after it.
pub open spec fn length_or_zero(item: AnimationItem) -> u32 {
    match item.length {
        Some(l) => l,
        None => 0,
    }
}

/// The command the item at position `i` of a sequence issues: the first
/// item replaces the track's content, every later one is enqueued with a
/// delay equal to the previous item's length.
pub open spec fn item_command(items: Seq<AnimationItem>, i: int) -> CommandView {
    if i == 0 {
        CommandView::SetTrack { track: 0, name: items[0].name@, looping: items[0].loop_ }
    } else {
        CommandView::AddTrack {
            track: 0,
            name: items[i].name@,
            looping: items[i].loop_,
            delay: length_or_zero(items[i - 1]),
        }
    }
}

/// The length of the last item of a sequence, or zero for an empty one:
/// the delay of the idle fallback.
pub open spec fn last_length(items: Seq<AnimationItem>) -> u32 {
    if items.len() == 0 {
        0
    } else {
        length_or_zero(items[items.len() - 1])
    }
}

/// All commands one action issues: its sequence in order, then, when the
/// action returns to idle and an idle animation is configured, that
/// animation looping, delayed by the last item's length.
pub open spec fn action_commands(a: Action, idle: Option<String>) -> Seq<CommandView> {
    let base = Seq::new(a.sequence@.len(), |i: int| item_command(a.sequence@, i));
    if a.return_to_idle {
        match idle {
            Some(name) => base.push(
                CommandView::AddTrack {
                    track: 0,
                    name: name@,
                    looping: true,
                    delay: last_length(a.sequence@),
                },
            ),
            None => base,
        }
    } else {
        base
    }
}

/// All commands a key-down issues once it reaches the action table: the
/// commands of every action whose trigger matches, in table order.
pub open spec fn trigger_commands(actions: Seq<Action>, idle: Option<String>, key: u32) -> Seq<
    CommandView,
>
    decreases actions.len(),
{
    if actions.len() == 0 {
        Seq::empty()
    } else {
        trigger_commands(actions.drop_last(), idle, key) + if actions.last().trigger == key {
            action_commands(actions.last(), idle)
        } else {
            Seq::empty()
        }
    }
}

/// Whether a key-down is a modifier-qualified shortcut that bypasses the
/// action table (scale adjustment on control-equals and control-minus).
pub open spec fn is_modifier_shortcut(modifiers: u32, key: u32) -> bool {
    modifiers == MOD_CTRL && (key == KEY_EQUALS || key == KEY_MINUS)
}

/// What a key-down emits: nothing while the key is already held (repeat
/// suppression) or for a modifier shortcut, else the matching actions'
/// commands.
pub open spec fn down_commands(
    pressed: Set<u32>,
    modifiers: u32,
    config: Config,
    key: u32,
) -> Seq<CommandView> {
    if pressed.contains(key) {
        Seq::empty()
    } else if is_modifier_shortcut(modifiers, key) {
        Seq::empty()
    } else {
        trigger_commands(config.actions@, config.idle_animation, key)
    }
}

/// Holding a key down issues its trigger sequence at most once: once the
/// key is in the pressed set, a further key-down for it emits nothing.
pub proof fn lemma_key_repeat_suppressed(
    pressed: Set<u32>,
    modifiers: u32,
    config: Config,
    key: u32,
)
    ensures
        down_commands(pressed.insert(key), modifiers, config, key) == Seq::<CommandView>::empty(),
{
}

/// Releasing a key re-arms it: after the release, a key-down emits
/// exactly what it would emit had the key never been pressed.
pub proof fn lemma_key_release_rearms(pressed: Set<u32>, modifiers: u32, config: Config, key: u32)
    ensures
        down_commands(pressed.remove(key), modifiers, config, key) == down_commands(
            Set::empty(),
            modifiers,
            config,
            key,
        ),
{
}

/// The input-facing state: which keys are held (to suppress key repeat),
/// the held-modifiers bitset, and the model's opacity percentage.
pub struct InputState {
    pressed: HashSet<u32>,
    modifiers: u32,
    opacity: u8,
}

impl InputState {
    /// The set of keys currently held down.
    pub closed spec fn pressed_keys(self) -> Set<u32> {
        self.pressed@
    }

    /// The held-modifiers bitset.
    pub closed spec fn held_modifiers(self) -> u32 {
        self.modifiers
    }

    /// The model's opacity percentage, from 0 to 100.
    pub closed spec fn opacity_percent(self) -> u8 {
        self.opacity
    }

    /// A fresh input state: no keys held, no modifiers, fully opaque.
    pub fn new() -> (r: InputState)
        ensures
            r.pressed_keys() == Set::<u32>::empty(),
            r.held_modifiers() == 0,
            r.opacity_percent() == 100,
    {
        InputState { pressed: HashSet::new(), modifiers: 0, opacity: 100 }
    }

    /// The current opacity percentage.
    pub fn opacity(&self) -> (r: u8)
        ensures
            r == self.opacity_percent(),
    {
        self.opacity
    }

    /// Set the model's opacity percentage.
    pub fn set_opacity(&mut self, opacity: u8)
        requires
            opacity <= 100,
        ensures
            final (self).opacity_percent() == opacity,
            final (self).pressed_keys() == old(self).pressed_keys(),
            final (self).held_modifiers() == old(self).held_modifiers(),
    {
        self.opacity = opacity;
    }

    /// Handle a key-down: suppress repeats of a held key, swallow modifier
    /// shortcuts, otherwise issue the commands of every matching action,
    /// in table order, onto `anim`. Always reports the event as handled.
    pub fn handle_key_down(&mut self, key: u32, config: &Config, anim: &mut AnimationState) -> (r:
        bool)
        ensures
            r,
            final (anim)@ == old(anim)@ + down_commands(
                old(self).pressed_keys(),
                old(self).held_modifiers(),
                *config,
                key,
            ),
            final (self).pressed_keys() == old(self).pressed_keys().insert(key),
            final (self).held_modifiers() == old(self).held_modifiers(),
            final (self).opacity_percent() == old(self).opacity_percent(),
    {
        if self.pressed.contains(&key) {
            proof {
                assert(self.pressed_keys().insert(key) =~= self.pressed_keys());
                assert(anim@ =~= anim@ + Seq::<CommandView>::empty());
            }
            return true;
        }
        self.pressed.insert(key);
        if self.modifiers == MOD_CTRL && (key == KEY_EQUALS || key == KEY_MINUS) {
            proof {
                assert(anim@ =~= anim@ + Seq::<CommandView>::empty());
            }
            return true;
        }
        let n = config.actions.len();
        let mut ai: usize = 0;
        while ai < n
            invariant
                ai <= n,
                n == config.actions@.len(),
                anim@ =~= old(anim)@ + trigger_commands(
                    config.actions@.take(ai as int),
                    config.idle_animation,
                    key,
                ),
            decreases n - ai,
        {
            proof {
                assert(config.actions@.take(ai + 1).drop_last() =~= config.actions@.take(
                    ai as int,
                ));
                assert(config.actions@.take(ai + 1).last() == config.actions@[ai as int]);
            }
            let action = &config.actions[ai];
            if action.trigger == key {
                self.run_action(action, config, anim);
            }
            ai = ai + 1;
        }
        proof {
            assert(config.actions@.take(n as int) =~= config.actions@);
        }
        true
    }

    /// Issue one action's commands onto `anim`.
    fn run_action(&self, action: &Action, config: &Config, anim: &mut AnimationState)
        ensures
            final (anim)@ == old(anim)@ + action_commands(*action, config.idle_animation),
    {
        let items = &action.sequence;
        let m = items.len();
        let mut last_length: u32 = 0;
        let mut j: usize = 0;
        while j < m
            invariant
                j <= m,
                m == items@.len(),
                anim@ =~= old(anim)@ + Seq::new(j as nat, |i: int| item_command(items@, i)),
                last_length == if j == 0 {
                    0u32
                } else {
                    length_or_zero(items@[j - 1])
                },
            decreases m - j,
        {
            let item = &items[j];
            if j == 0 {
                anim.set_animation_by_name(0, item.name.as_str(), item.loop_);
            } else {
                anim.add_animation_by_name(0, item.name.as_str(), item.loop_, last_length);
            }
            proof {
                assert(anim@ =~= old(anim)@ + Seq::new((j + 1) as nat, |i: int| item_command(items@, i)));
            }
            last_length = match item.length {
                Some(l) => l,
                None => 0,
            };
            j = j + 1;
        }
        if action.return_to_idle {
            if let Some(idle_name) = &config.idle_animation {
                anim.add_animation_by_name(0, idle_name.as_str(), true, last_length);
            }
        }
        proof {
            assert(anim@ =~= old(anim)@ + action_commands(*action, config.idle_animation));
        }
    }

    /// Handle a key-up: drop the key from the pressed set, re-arming its
    /// trigger. Reports whether the key was held.
    pub fn handle_key_up(&mut self, key: u32) -> (r: bool)
        ensures
            r == old(self).pressed_keys().contains(key),
            final (self).pressed_keys() == old(self).pressed_keys().remove(key),
            final (self).held_modifiers() == old(self).held_modifiers(),
            final (self).opacity_percent() == old(self).opacity_percent(),
    {
        self.pressed.remove(&key)
    }

    /// Handle a change of the held modifiers. Always reports the event as
    /// handled.
    pub fn handle_modifiers_changed(&mut self, modifiers: u32) -> (r: bool)
        ensures
            r,
            final (self).held_modifiers() == modifiers,
            final (self).pressed_keys() == old(self).pressed_keys(),
            final (self).opacity_percent() == old(self).opacity_percent(),
    {
        self.modifiers = modifiers;
        true
    }
}

} // verus!
