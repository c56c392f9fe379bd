//! The capture pipeline: everything the hook callback decides. One raw
//! key notification (a key transition plus the UTF-16 code units the OS
//! translated it to) is classified, reassembled into characters, and run
//! through the dispatcher; the result is the characters to broadcast.

use vstd::prelude::*;

use crate::common::{Event, KeyState};
use crate::dispatch::{step, DispatchState, Dispatcher};
use crate::keycode::{map_virtual_key, virtual_key_map, KeyCode};
use crate::utf16::{decode_first, decode_units, BufferedUtf16Iterator};

verus! {

/// Substituted for every invalid or incomplete code-unit sequence, so that
/// viewers see one character per decode result and nothing is silently
/// dropped.
pub const REPLACEMENT_CHARACTER: char = '\u{FFFD}';

/// The character event one decode outcome turns into: the scalar value
/// itself, or the replacement character for an invalid unit.
pub open spec fn char_event_of(r: Result<char, u16>) -> Event {
    match r {
        Ok(c) => Event::Char(c),
        Err(_) => Event::Char(REPLACEMENT_CHARACTER),
    }
}

/// The character events produced by a sequence of decode outcomes.
pub open spec fn char_events(rs: Seq<Result<char, u16>>) -> Seq<Event> {
    rs.map_values(|r: Result<char, u16>| char_event_of(r))
}

/// The events one hook notification turns into: the key transition, when
/// the native code maps to a canonical key, followed by one character
/// event per decode result of the accompanying code units.
pub open spec fn events_of(pressed: bool, native_code: u32, units: Seq<u16>) -> Seq<Event> {
    let key_events = match virtual_key_map(native_code) {
        Some(k) => seq![
            Event::Key {
                scancode: k,
                key_state: if pressed {
                    KeyState::Pressed
                } else {
                    KeyState::Released
                },
            },
        ],
        None => Seq::empty(),
    };
    key_events + char_events(decode_units(units))
}

/// The dispatcher folded over a sequence of events: the state it ends in
/// and the characters it emits, in order.
pub open spec fn run_steps(s: DispatchState, events: Seq<Event>, fg_window: u64) -> (
    DispatchState,
    Seq<char>,
)
    decreases events.len(),
{
    if events.len() == 0 {
        (s, Seq::empty())
    } else {
        let (s1, out) = step(s, events[0], fg_window);
        let (s2, rest) = run_steps(s1, events.skip(1), fg_window);
        (
            s2,
            (match out {
                Some(c) => seq![c],
                None => Seq::empty(),
            }) + rest,
        )
    }
}

/// Running the dispatcher over `a + b` is running it over `a` and then,
/// from the state `a` leaves, over `b`; the outputs concatenate.
pub proof fn lemma_run_steps_concat(s: DispatchState, a: Seq<Event>, b: Seq<Event>, fg_window: u64)
    ensures
        run_steps(s, a + b, fg_window).0 == run_steps(run_steps(s, a, fg_window).0, b, fg_window).0,
        run_steps(s, a + b, fg_window).1 == run_steps(s, a, fg_window).1 + run_steps(
            run_steps(s, a, fg_window).0,
            b,
            fg_window,
        ).1,
    decreases a.len(),
{
    if a.len() == 0 {
        assert(a + b =~= b);
        assert(run_steps(s, a, fg_window).1 + run_steps(s, b, fg_window).1 =~= run_steps(
            s,
            b,
            fg_window,
        ).1);
    } else {
        let (s1, out) = step(s, a[0], fg_window);
        assert((a + b)[0] == a[0]);
        assert((a + b).skip(1) =~= a.skip(1) + b);
        lemma_run_steps_concat(s1, a.skip(1), b, fg_window);
        let o = match out {
            Some(c) => seq![c],
            None => Seq::<char>::empty(),
        };
        assert(o + (run_steps(s1, a.skip(1), fg_window).1 + run_steps(
            run_steps(s1, a.skip(1), fg_window).0,
            b,
            fg_window,
        ).1) =~= (o + run_steps(s1, a.skip(1), fg_window).1) + run_steps(
            run_steps(s1, a.skip(1), fg_window).0,
            b,
            fg_window,
        ).1);
    }
}

/// The whole capture path for one hook registration: the reassembly buffer
/// for OS-translated code units and the dispatcher they feed.
#[derive(Debug)]
pub struct CapturePipeline {
    char_iter: BufferedUtf16Iterator,
    dispatcher: Dispatcher,
}

impl CapturePipeline {
    /// The dispatcher state the pipeline is in.
    pub closed spec fn state(self) -> DispatchState {
        self.dispatcher@
    }

    /// Between notifications every pushed code unit has been drained.
    pub closed spec fn drained(self) -> bool {
        self.char_iter@.len() == 0
    }

    /// A fresh pipeline: empty reassembly buffer, every modifier slot
    /// Released, no capture target, re-targeting bound to `hotkey`.
    pub fn new(hotkey: KeyCode) -> (r: Self)
        ensures
            r.drained(),
            r.state().wf(),
            r.state().modifiers =~= seq![
                KeyState::Released,
                KeyState::Released,
                KeyState::Released,
                KeyState::Released,
            ],
            r.state().target is None,
            r.state().hotkey == hotkey,
    {
        CapturePipeline { char_iter: BufferedUtf16Iterator::new(), dispatcher: Dispatcher::new(hotkey) }
    }

    /// Handles one raw notification: whether the key went down or up, the
    /// OS-native key code, the UTF-16 code units the OS translated the
    /// keystroke to (empty when it produced no text), and the window in
    /// focus. Returns the characters to broadcast, in order: exactly what
    /// the dispatcher emits on the key transition and on each decoded
    /// character, per [`events_of`] and [`run_steps`].
    pub fn on_key_message(
        &mut self,
        pressed: bool,
        native_code: u32,
        units: &Vec<u16>,
        fg_window: u64,
    ) -> (out: Vec<char>)
        requires
            old(self).drained(),
        ensures
            final(self).drained(),
            final(self).state() == run_steps(
                old(self).state(),
                events_of(pressed, native_code, units@),
                fg_window,
            ).0,
            out@ == run_steps(
                old(self).state(),
                events_of(pressed, native_code, units@),
                fg_window,
            ).1,
    {
        let ghost s0 = self.dispatcher@;
        let ghost evs_all = events_of(pressed, native_code, units@);
        let ghost key_events: Seq<Event> = match virtual_key_map(native_code) {
            Some(k) => seq![
                Event::Key {
                    scancode: k,
                    key_state: if pressed {
                        KeyState::Pressed
                    } else {
                        KeyState::Released
                    },
                },
            ],
            None => Seq::empty(),
        };
        let ghost char_events_all = char_events(decode_units(units@));

        let mut out: Vec<char> = Vec::new();

        // the key transition, if the native code maps to a canonical key
        if let Some(k) = map_virtual_key(native_code) {
            let key_state = if pressed {
                KeyState::Pressed
            } else {
                KeyState::Released
            };
            let event = Event::Key { scancode: k, key_state };
            let emitted = self.dispatcher.on_event(event, fg_window);
            if let Some(c) = emitted {
                out.push(c);
            }
            proof {
                assert(key_events == seq![event]);
                let s1g = step(s0, event, fg_window).0;
                let og = step(s0, event, fg_window).1;
                let tail = key_events.skip(1);
                assert(tail =~= Seq::<Event>::empty());
                assert(run_steps(s1g, tail, fg_window).0 == s1g);
                assert(run_steps(s1g, tail, fg_window).1 == Seq::<char>::empty());
                assert(key_events[0] == event);
                assert(run_steps(s0, key_events, fg_window).0 == s1g);
                assert(run_steps(s0, key_events, fg_window).1 =~= (match og {
                    Some(c) => seq![c],
                    None => Seq::<char>::empty(),
                }));
                assert(out@ =~= (match og {
                    Some(c) => seq![c],
                    None => Seq::<char>::empty(),
                }));
            }
        } else {
            proof {
                assert(key_events =~= Seq::<Event>::empty());
                assert(run_steps(s0, key_events, fg_window).0 == s0);
                assert(run_steps(s0, key_events, fg_window).1 == Seq::<char>::empty());
                assert(out@ =~= Seq::<char>::empty());
            }
        }
        proof {
            assert(run_steps(s0, key_events, fg_window).0 == self.dispatcher@);
            assert(run_steps(s0, key_events, fg_window).1 == out@);
        }
        let ghost d_mid = self.dispatcher@;

        // buffer every code unit the OS handed over
        let mut i: usize = 0;
        proof {
            assert(self.char_iter@ =~= units@.take(0));
        }
        while i < units.len()
            invariant
                i <= units@.len(),
                self.char_iter@ == units@.take(i as int),
                self.dispatcher@ == d_mid,
                run_steps(s0, key_events, fg_window).0 == d_mid,
                run_steps(s0, key_events, fg_window).1 == out@,
            decreases units@.len() - i,
        {
            self.char_iter.push_u16(units[i]);
            proof {
                assert(units@.take(i as int).push(units@[i as int]) =~= units@.take(i as int + 1));
            }
            i += 1;
        }
        proof {
            assert(self.char_iter@ =~= units@);
            lemma_run_steps_concat(s0, key_events, char_events_all, fg_window);
            assert(run_steps(s0, evs_all, fg_window).0 == run_steps(
                d_mid,
                char_events(decode_units(self.char_iter@)),
                fg_window,
            ).0);
            assert(run_steps(s0, evs_all, fg_window).1 =~= out@ + run_steps(
                d_mid,
                char_events(decode_units(self.char_iter@)),
                fg_window,
            ).1);
        }

        // drain fully: one dispatcher step per decoded result
        let mut more = true;
        while more
            invariant
                !more ==> self.char_iter@.len() == 0,
                run_steps(s0, evs_all, fg_window).0 == run_steps(
                    self.dispatcher@,
                    char_events(decode_units(self.char_iter@)),
                    fg_window,
                ).0,
                run_steps(s0, evs_all, fg_window).1 == out@ + run_steps(
                    self.dispatcher@,
                    char_events(decode_units(self.char_iter@)),
                    fg_window,
                ).1,
            decreases self.char_iter@.len() + (if more {
                1int
            } else {
                0int
            }),
        {
            let ghost v = self.char_iter@;
            let ghost d_cur = self.dispatcher@;
            let ghost out_pre = out@;
            match self.char_iter.next() {
                None => {
                    more = false;
                },
                Some(res) => {
                    proof {
                        let (r0, n) = decode_first(v)->0;
                        assert(decode_units(v) == seq![r0] + decode_units(v.skip(n)));
                        assert(char_events(decode_units(v))[0] == char_event_of(r0));
                        assert(char_events(decode_units(v)).skip(1) =~= char_events(
                            decode_units(v.skip(n)),
                        ));
                    }
                    let c = match res {
                        Ok(c) => c,
                        Err(_) => REPLACEMENT_CHARACTER,
                    };
                    let ghost e0 = char_events(decode_units(v))[0];
                    proof {
                        assert(e0 == Event::Char(c));
                    }
                    if let Some(emitted) = self.dispatcher.on_event(Event::Char(c), fg_window) {
                        out.push(emitted);
                        proof {
                            assert(out@ =~= out_pre + seq![emitted]);
                            assert(out_pre + (seq![emitted] + run_steps(
                                self.dispatcher@,
                                char_events(decode_units(self.char_iter@)),
                                fg_window,
                            ).1) =~= out@ + run_steps(
                                self.dispatcher@,
                                char_events(decode_units(self.char_iter@)),
                                fg_window,
                            ).1);
                        }
                    } else {
                        proof {
                            assert(out_pre + (Seq::<char>::empty() + run_steps(
                                self.dispatcher@,
                                char_events(decode_units(self.char_iter@)),
                                fg_window,
                            ).1) =~= out@ + run_steps(
                                self.dispatcher@,
                                char_events(decode_units(self.char_iter@)),
                                fg_window,
                            ).1);
                        }
                    }
                },
            }
        }
        proof {
            assert(char_events(decode_units(self.char_iter@)) =~= Seq::<Event>::empty());
            assert(out@ + Seq::<char>::empty() =~= out@);
        }
        out
    }
}

} // verus!
