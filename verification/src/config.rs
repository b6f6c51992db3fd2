use vstd::prelude::*;

use crate::keyboard::{Key, KeyPattern};
use crate::modifier::Modifier;
use crate::ordered_map::OrderedMap;

verus! {

/// Key repeat: events per second, and the delay in milliseconds before repeating.
#[derive(Debug)]
pub struct StrataRepeatInfoConfig {
    pub rate: i32,
    pub delay: i32,
}

impl Default for StrataRepeatInfoConfig {
    fn default() -> (r: Self)
        ensures
            r.rate == 20,
            r.delay == 200,
    {
        StrataRepeatInfoConfig { rate: 20, delay: 200 }
    }
}

/// The absolute value of an integer.
pub open spec fn abs_int(x: int) -> int {
    if x < 0 {
        -x
    } else {
        x
    }
}

/// The absolute value is the value or its negation, and never negative.
pub proof fn lemma_abs(x: int)
    ensures
        abs_int(x) >= 0,
        abs_int(x) == x || abs_int(x) == -x,
        x >= 0 ==> abs_int(x) == x,
{
}

fn abs_i32(x: i32) -> (r: i32)
    requires
        x != i32::MIN,
    ensures
        r == abs_int(x as int),
{
    if x < 0 {
        -x
    } else {
        x
    }
}

impl StrataRepeatInfoConfig {
    /// The rate and delay to hand to the keyboard when a script sets them: each
    /// given value, else the configured one, taken as its absolute value.
    pub fn effective(&self, rate: Option<i32>, delay: Option<i32>) -> (r: (i32, i32))
        requires
            rate.unwrap_or(self.rate) != i32::MIN,
            delay.unwrap_or(self.delay) != i32::MIN,
        ensures
            r.0 == abs_int(rate.unwrap_or(self.rate) as int),
            r.1 == abs_int(delay.unwrap_or(self.delay) as int),
    {
        let rate = match rate {
            Some(x) => x,
            None => self.rate,
        };
        let delay = match delay {
            Some(x) => x,
            None => self.delay,
        };
        (abs_i32(rate), abs_i32(delay))
    }
}

/// The keymap settings: layout, rules, model, options and variant.
#[derive(Debug)]
pub struct StrataXkbConfig {
    pub layout: String,
    pub rules: String,
    pub model: String,
    pub options: Option<String>,
    pub variant: String,
}

impl Default for StrataXkbConfig {
    fn default() -> (r: Self)
        ensures
            r.layout@ == Seq::<char>::empty(),
            r.rules@ == Seq::<char>::empty(),
            r.model@ == Seq::<char>::empty(),
            r.options is None,
            r.variant@ == Seq::<char>::empty(),
    {
        StrataXkbConfig {
            layout: String::new(),
            rules: String::new(),
            model: String::new(),
            options: None,
            variant: String::new(),
        }
    }
}

/// Settings that a script gives for the keymap; each given one replaces the
/// configured one.
#[derive(Debug)]
pub struct XkbOverrides {
    pub layout: Option<String>,
    pub rules: Option<String>,
    pub model: Option<String>,
    pub options: Option<String>,
    pub variant: Option<String>,
}

/// The text of an optional setting, or the current one when it is not given.
pub open spec fn or_current(given: Option<String>, current: Seq<char>) -> Seq<char> {
    match given {
        Some(s) => s@,
        None => current,
    }
}

/// A given setting replaces the current one, whatever it is, the empty text
/// included; a setting not given leaves the current one.
pub proof fn lemma_given_setting_replaces(s: String, current: Seq<char>)
    ensures
        or_current(Some(s), current) == s@,
        or_current(None, current) == current,
{
}

fn replace_if_given(field: &mut String, given: Option<String>)
    ensures
        final(field)@ == or_current(given, old(field)@),
{
    match given {
        Some(s) => {
            *field = s;
        },
        None => {},
    }
}

impl StrataXkbConfig {
    /// Replaces each setting that `o` gives; the options become set when given.
    pub fn apply_overrides(&mut self, o: XkbOverrides)
        ensures
            final(self).layout@ == or_current(o.layout, old(self).layout@),
            final(self).rules@ == or_current(o.rules, old(self).rules@),
            final(self).model@ == or_current(o.model, old(self).model@),
            final(self).variant@ == or_current(o.variant, old(self).variant@),
            match o.options {
                Some(s) => final(self).options matches Some(t) && t@ == s@,
                None => final(self).options == old(self).options,
            },
    {
        replace_if_given(&mut self.layout, o.layout);
        replace_if_given(&mut self.rules, o.rules);
        replace_if_given(&mut self.model, o.model);
        match o.options {
            Some(s) => {
                self.options = Some(s);
            },
            None => {},
        }
        replace_if_given(&mut self.variant, o.variant);
    }

    /// Edits the keymap settings held in `slot`: the settings are taken out and
    /// handed to `edit`; when it succeeds with some settings, they are handed to
    /// `apply` and, when that succeeds too, put back. On any error the error is
    /// returned and the slot stays empty.
    pub fn update<E, F, A>(slot: &mut Option<StrataXkbConfig>, edit: F, apply: A) -> (r: Result<
        (),
        E,
    >) where
        F: FnOnce(Option<StrataXkbConfig>) -> Result<Option<StrataXkbConfig>, E>,
        A: FnOnce(&StrataXkbConfig) -> Result<(), E>,

        requires
            call_requires(edit, (*old(slot),)),
            forall|c: &StrataXkbConfig| call_requires(apply, (c,)),
        ensures
            match r {
                Ok(()) => exists|c: Option<StrataXkbConfig>|
                    {
                        &&& #[trigger] call_ensures(edit, (*old(slot),), Ok(c))
                        &&& *final(slot) == c
                        &&& (c matches Some(cfg) ==> call_ensures(apply, (&cfg,), Ok(())))
                    },
                Err(e) => {
                    &&& *final(slot) is None
                    &&& (call_ensures(edit, (*old(slot),), Err(e)) || exists|
                        cfg: StrataXkbConfig,
                    |
                        #[trigger] call_ensures(edit, (*old(slot),), Ok(Some(cfg)))
                            && call_ensures(apply, (&cfg,), Err(e)))
                },
            },
    {
        let ghost before = *slot;
        let cfg = slot.take();
        let edited = edit(cfg);
        match edited {
            Err(e) => Err(e),
            Ok(None) => {
                assert(call_ensures(edit, (before,), Ok::<Option<StrataXkbConfig>, E>(None)));
                Ok(())
            },
            Ok(Some(c)) => {
                let applied = apply(&c);
                match applied {
                    Err(e) => Err(e),
                    Ok(u) => {
                        assert(u == ());
                        assert(call_ensures(
                            edit,
                            (before,),
                            Ok::<Option<StrataXkbConfig>, E>(Some(c)),
                        ));
                        *slot = Some(c);
                        Ok(())
                    },
                }
            },
        }
    }
}

/// Input settings: key repeat, keymap, and the bindings of chords to callbacks.
pub struct StrataInputConfig<F> {
    pub repeat_info: StrataRepeatInfoConfig,
    pub xkbconfig: Option<StrataXkbConfig>,
    pub global_keybinds: OrderedMap<KeyPattern, F>,
    pub global_mousebinds: OrderedMap<KeyPattern, F>,
}

impl<F> Default for StrataInputConfig<F> {
    fn default() -> (r: Self)
        ensures
            r.repeat_info.rate == 20,
            r.repeat_info.delay == 200,
            r.xkbconfig matches Some(c) && {
                &&& c.layout@ == "it"@
                &&& c.rules@ == Seq::<char>::empty()
                &&& c.model@ == Seq::<char>::empty()
                &&& c.options matches Some(o) && o@ == "caps:swapescape"@
                &&& c.variant@ == Seq::<char>::empty()
            },
            r.global_keybinds@ == Map::<KeyPattern, F>::empty(),
            r.global_mousebinds@ == Map::<KeyPattern, F>::empty(),
    {
        StrataInputConfig {
            repeat_info: StrataRepeatInfoConfig::default(),
            xkbconfig: Some(
                StrataXkbConfig {
                    layout: String::from_str("it"),
                    rules: String::new(),
                    model: String::new(),
                    options: Some(String::from_str("caps:swapescape")),
                    variant: String::new(),
                },
            ),
            global_keybinds: OrderedMap::new(),
            global_mousebinds: OrderedMap::new(),
        }
    }
}

impl<F> StrataInputConfig<F> {
    /// Binds the chord of `modifier` and `key` to `cb`, replacing an earlier
    /// binding of the same chord; a rebound chord keeps its position, a new
    /// chord goes last.
    pub fn keybind(&mut self, modifier: Modifier, key: Key, cb: F)
        ensures
            final(self).global_keybinds@ == old(self).global_keybinds@.insert(
                (KeyPattern { modifier, key }),
                cb,
            ),
            final(self).global_keybinds.key_order() == if old(self).global_keybinds@.contains_key(
                (KeyPattern { modifier, key }),
            ) {
                old(self).global_keybinds.key_order()
            } else {
                old(self).global_keybinds.key_order().push((KeyPattern { modifier, key }))
            },
            final(self).global_mousebinds@ == old(self).global_mousebinds@,
            final(self).global_mousebinds.key_order() == old(self).global_mousebinds.key_order(),
    {
        self.global_keybinds.insert(KeyPattern { modifier, key }, cb);
    }
}

/// The compositor's configuration.
pub struct StrataConfig<F> {
    pub input_config: StrataInputConfig<F>,
}

impl<F> Default for StrataConfig<F> {
    fn default() -> (r: Self)
        ensures
            r.input_config.repeat_info.rate == 20,
            r.input_config.repeat_info.delay == 200,
            r.input_config.xkbconfig matches Some(c) && {
                &&& c.layout@ == "it"@
                &&& c.rules@ == Seq::<char>::empty()
                &&& c.model@ == Seq::<char>::empty()
                &&& c.options matches Some(o) && o@ == "caps:swapescape"@
                &&& c.variant@ == Seq::<char>::empty()
            },
            r.input_config.global_keybinds@ == Map::<KeyPattern, F>::empty(),
            r.input_config.global_mousebinds@ == Map::<KeyPattern, F>::empty(),
    {
        StrataConfig { input_config: StrataInputConfig::default() }
    }
}

} // verus!
