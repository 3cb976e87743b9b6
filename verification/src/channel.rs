//! The to-host output channel and the halt/panic control flow.
//!
//! The testbench watches two memory-mapped 32-bit registers: every byte of
//! program output is stored to the to-host register as one zero-extended
//! 32-bit word, and the value `1` stored to the halt register tells the
//! harness to end the simulation. [`TestBenchIo`] records the exact sequence
//! of words stored to each register, in program order; the surrounding
//! program performs the volatile stores from those logs.

use vstd::prelude::*;

verus! {

use vstd::string::*;
use crate::fmt::{dec_digits, fmt_u64, render, render_line, render_template};

/// The words that a byte sequence puts on the to-host register: one 32-bit
/// store per byte, zero-extended, in order.
pub open spec fn words_of(bytes: Seq<u8>) -> Seq<u32> {
    bytes.map_values(|b: u8| b as u32)
}

pub broadcast proof fn lemma_words_of_concat(a: Seq<u8>, b: Seq<u8>)
    ensures
        #[trigger] words_of(a + b) =~= words_of(a) + words_of(b),
{
}

/// Everything the testbench observes: the words stored to each register, in
/// program order.
#[verifier::ext_equal]
pub struct TestBenchIoView {
    pub tohost: Seq<u32>,
    pub hosthalt: Seq<u32>,
}

impl TestBenchIoView {
    /// The machine is halted once the halt register has been written; a
    /// halted machine performs no further stores to either register.
    pub open spec fn halted(self) -> bool {
        self.hosthalt.len() > 0
    }
}

/// The program's handle on the two testbench registers. It records every
/// word the program stores, so its view is exactly what the testbench
/// observes.
pub struct TestBenchIo {
    tohost: Vec<u32>,
    hosthalt: Vec<u32>,
}

impl View for TestBenchIo {
    type V = TestBenchIoView;

    closed spec fn view(&self) -> TestBenchIoView {
        TestBenchIoView { tohost: self.tohost@, hosthalt: self.hosthalt@ }
    }
}

impl TestBenchIo {
    /// The halt register only ever receives the single word `1`.
    pub open spec fn wf(self) -> bool {
        self@.hosthalt == Seq::<u32>::empty() || self@.hosthalt == seq![1u32]
    }

    /// A handle on a running machine that has stored nothing yet.
    pub fn new() -> (r: TestBenchIo)
        ensures
            r.wf(),
            r@.tohost == Seq::<u32>::empty(),
            r@.hosthalt == Seq::<u32>::empty(),
    {
        TestBenchIo { tohost: Vec::new(), hosthalt: Vec::new() }
    }

    /// Stores each byte to the to-host register, in order, one zero-extended
    /// 32-bit word per byte. On a halted machine nothing is stored.
    pub fn write_bytes(&mut self, bytes: &[u8])
        requires
            old(self).wf(),
        ensures
            final(self).wf(),
            old(self)@.halted() ==> final(self)@ == old(self)@,
            !old(self)@.halted() ==> final(self)@ == (TestBenchIoView {
                tohost: old(self)@.tohost + words_of(bytes@),
                hosthalt: old(self)@.hosthalt,
            }),
    {
        if self.hosthalt.len() == 0 {
            proof {
                assert(self@.tohost =~= old(self)@.tohost + words_of(bytes@.take(0)));
            }
            let mut i: usize = 0;
            while i < bytes.len()
                invariant
                    i <= bytes@.len(),
                    self@.tohost == old(self)@.tohost + words_of(bytes@.take(i as int)),
                    self@.hosthalt == old(self)@.hosthalt,
                decreases bytes@.len() - i,
            {
                let b = bytes[i];
                self.tohost.push(b as u32);
                i = i + 1;
                proof {
                    assert(words_of(bytes@.take(i as int)) =~= words_of(
                        bytes@.take(i as int - 1),
                    ).push(bytes@[i as int - 1] as u32));
                    assert(self@.tohost =~= old(self)@.tohost + words_of(bytes@.take(i as int)));
                }
            }
            proof {
                assert(bytes@.take(bytes@.len() as int) =~= bytes@);
                assert(self@ =~= (TestBenchIoView {
                    tohost: old(self)@.tohost + words_of(bytes@),
                    hosthalt: old(self)@.hosthalt,
                }));
            }
        }
    }

    /// Writes the UTF-8 bytes of `s` to the to-host register, in order.
    pub fn write_str(&mut self, s: &str)
        requires
            old(self).wf(),
        ensures
            final(self).wf(),
            old(self)@.halted() ==> final(self)@ == old(self)@,
            !old(self)@.halted() ==> final(self)@ == (TestBenchIoView {
                tohost: old(self)@.tohost + words_of(s.spec_bytes()),
                hosthalt: old(self)@.hosthalt,
            }),
    {
        self.write_bytes(s.as_bytes());
    }

    /// Writes the template with the arguments spliced into its `{}`
    /// placeholders, in order.
    pub fn print_fmt(&mut self, template: &str, args: &Vec<Vec<u8>>)
        requires
            old(self).wf(),
        ensures
            final(self).wf(),
            old(self)@.halted() ==> final(self)@ == old(self)@,
            !old(self)@.halted() ==> final(self)@ == (TestBenchIoView {
                tohost: old(self)@.tohost + words_of(
                    render(template.spec_bytes(), args.deep_view()),
                ),
                hosthalt: old(self)@.hosthalt,
            }),
    {
        let bytes = render_template(template.as_bytes(), args);
        self.write_bytes(bytes.as_slice());
    }

    /// [`Self::print_fmt`], followed by a single line-feed byte.
    pub fn println_fmt(&mut self, template: &str, args: &Vec<Vec<u8>>)
        requires
            old(self).wf(),
        ensures
            final(self).wf(),
            old(self)@.halted() ==> final(self)@ == old(self)@,
            !old(self)@.halted() ==> final(self)@ == (TestBenchIoView {
                tohost: old(self)@.tohost + words_of(
                    render_line(template.spec_bytes(), args.deep_view()),
                ),
                hosthalt: old(self)@.hosthalt,
            }),
    {
        let mut bytes = render_template(template.as_bytes(), args);
        bytes.push(10);
        self.write_bytes(bytes.as_slice());
    }

    /// The words stored to the to-host register so far, in program order.
    pub fn tohost_words(&self) -> (r: &Vec<u32>)
        ensures
            r@ == self@.tohost,
    {
        &self.tohost
    }

    /// The words stored to the halt register so far, in program order.
    pub fn hosthalt_words(&self) -> (r: &Vec<u32>)
        ensures
            r@ == self@.hosthalt,
    {
        &self.hosthalt
    }

    /// Whether the halt signal has been given.
    pub fn is_halted(&self) -> (r: bool)
        ensures
            r == self@.halted(),
    {
        self.hosthalt.len() > 0
    }
}

/// Signals termination: one store of the word `1` to the halt register,
/// after which the machine idles. On a machine that is already halted
/// nothing further is stored, to either register, ever.
pub fn halt(io: &mut TestBenchIo)
    requires
        old(io).wf(),
    ensures
        final(io).wf(),
        old(io)@.halted() ==> final(io)@ == old(io)@,
        !old(io)@.halted() ==> final(io)@ == (TestBenchIoView {
            tohost: old(io)@.tohost,
            hosthalt: old(io)@.hosthalt.push(1u32),
        }),
        final(io)@.halted(),
{
    if io.hosthalt.len() == 0 {
        io.hosthalt.push(1);
        proof {
            assert(io@.hosthalt =~= seq![1u32]);
        }
    }
}

/// The diagnostic line for a fault at a known source location.
pub open spec fn location_line(file: &str, line: u32) -> Seq<u8> {
    "Panic encountered at ".spec_bytes() + file.spec_bytes() + ":".spec_bytes() + dec_digits(
        line as nat,
    ) + "!\n".spec_bytes()
}

/// The diagnostic line for a fault whose source location is unknown.
pub open spec fn bare_panic_line() -> Seq<u8> {
    "Panic encountered!\n".spec_bytes()
}

/// The diagnostic line for a fault that carries a string payload.
pub open spec fn info_line(payload: &str) -> Seq<u8> {
    "Info: '".spec_bytes() + payload.spec_bytes() + "'\n".spec_bytes()
}

/// Everything the panic handler writes to the to-host register: the location
/// line (or the bare line when the panic site is unknown), then the payload
/// line when the fault carries a string payload.
pub open spec fn panic_message(location: Option<(&str, u32)>, payload: Option<&str>) -> Seq<u8> {
    (match location {
        Some(loc) => location_line(loc.0, loc.1),
        None => bare_panic_line(),
    }) + (match payload {
        Some(s) => info_line(s),
        None => Seq::<u8>::empty(),
    })
}

/// The terminal fault handler: reports the fault through the output channel,
/// then halts. It writes the location line when the panic site is known, the
/// payload line when the fault carries a string payload (a fault with any
/// other payload gets no payload line), and then the halt signal; nothing is
/// stored afterwards.
#[verifier::rlimit(30)]
pub fn handle_panic(io: &mut TestBenchIo, location: Option<(&str, u32)>, payload: Option<&str>)
    requires
        old(io).wf(),
    ensures
        final(io).wf(),
        old(io)@.halted() ==> final(io)@ == old(io)@,
        !old(io)@.halted() ==> final(io)@ == (TestBenchIoView {
            tohost: old(io)@.tohost + words_of(panic_message(location, payload)),
            hosthalt: old(io)@.hosthalt.push(1u32),
        }),
        final(io)@.halted(),
{
    broadcast use lemma_words_of_concat;

    match location {
        Some((file, line)) => {
            io.write_str("Panic encountered at ");
            io.write_str(file);
            io.write_str(":");
            let digits = fmt_u64(line as u64);
            io.write_bytes(digits.as_slice());
            io.write_str("!\n");
        },
        None => {
            io.write_str("Panic encountered!\n");
        },
    }
    match payload {
        Some(s) => {
            io.write_str("Info: '");
            io.write_str(s);
            io.write_str("'\n");
        },
        None => {},
    }
    halt(io);
    proof {
        if !old(io)@.halted() {
            assert(io@ =~= (TestBenchIoView {
                tohost: old(io)@.tohost + words_of(panic_message(location, payload)),
                hosthalt: old(io)@.hosthalt.push(1u32),
            }));
        }
    }
}

} // verus!
