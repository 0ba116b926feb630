//! The MC6821 peripheral interface adapter: two 8-bit ports with data
//! direction registers, control registers and four control lines, talking to
//! its peripherals through FIFO queues.
use vstd::prelude::*;

verus! {

/// Level of a PIA control line.
#[derive(PartialEq, Eq, Structural, Clone, Copy, Debug)]
pub enum Signal {
    Fall,
    Rise,
}

/// What the PIA posts on its interrupt queue.
#[derive(PartialEq, Eq, Structural, Clone, Copy, Debug)]
pub enum InterruptSignal {
    NoSignal,
    IRQ,
    NMI,
    BRK,
}

/// A signal from a peripheral: a byte on an input register or an edge on a control line.
#[derive(PartialEq, Eq, Structural, Clone, Copy, Debug)]
pub enum InputSignal {
    IRA(u8),
    IRB(u8),
    CA1(Signal),
    CA2(Signal),
    CB1(Signal),
    CB2(Signal),
}

/// The edge that a polarity bit selects: 1 selects the rising one.
pub open spec fn active_edge(positive: bool) -> Signal {
    if positive {
        Signal::Rise
    } else {
        Signal::Fall
    }
}

/// One side (A or B) of the PIA: its registers, its two control lines and the
/// control register bits decoded for quick use.
#[derive(Clone, Copy, Debug)]
pub struct PiaPort {
    /// output register
    pub or: u8,
    /// input register
    pub ir: u8,
    /// data direction register (1 = output pin)
    pub ddr: u8,
    /// complement of `ddr`
    pub ddr_neg: u8,
    /// control line 1
    pub c1: Signal,
    /// control line 2
    pub c2: Signal,
    /// control register
    pub cr: u8,
    pub enable_irq_1: bool,
    pub c1_positive_trans: bool,
    pub write_port: bool,
    pub enable_irq_2: bool,
    pub pulse_output: bool,
    pub c2_set_high: bool,
    pub c2_positive_trans: bool,
    pub manual_output: bool,
    pub output_mode: bool,
}

impl PiaPort {
    /// `ddr_neg` is the complement of `ddr`, and the decoded flags agree with
    /// the control register.
    pub open spec fn wf(&self) -> bool {
        let cr = self.cr;
        &&& self.ddr_neg == !self.ddr
        &&& self.enable_irq_1 == (cr & 0x01 != 0)
        &&& self.c1_positive_trans == (cr & 0x02 != 0)
        &&& self.write_port == (cr & 0x04 != 0)
        &&& self.output_mode == (cr & 0x20 != 0)
        &&& self.manual_output == (self.output_mode && cr & 0x10 != 0)
        &&& self.c2_set_high == (self.manual_output && cr & 0x08 != 0)
        &&& self.pulse_output == (self.output_mode && !self.manual_output && cr & 0x08 != 0)
        &&& self.enable_irq_2 == (!self.output_mode && cr & 0x08 != 0)
        &&& self.c2_positive_trans == (!self.output_mode && cr & 0x10 != 0)
    }

    /// The value seen on the port: output bits from `or`, input bits from `ir`.
    pub open spec fn port_value(&self) -> u8 {
        (self.or & self.ddr) | (self.ir & self.ddr_neg)
    }

    /// Whether this side requests an interrupt: an enabled flag is latched.
    pub open spec fn irq_asserted(&self) -> bool {
        (self.enable_irq_1 && self.cr & 0x80 != 0) || (self.enable_irq_2 && self.cr & 0x40 != 0)
    }

    /// The port with its flags re-derived from `cr`; in manual output mode C2
    /// follows bit 3.
    pub open spec fn decoded(self) -> PiaPort {
        let cr = self.cr;
        let output_mode = cr & 0x20 != 0;
        let manual_output = output_mode && cr & 0x10 != 0;
        let c2_set_high = manual_output && cr & 0x08 != 0;
        PiaPort {
            enable_irq_1: cr & 0x01 != 0,
            c1_positive_trans: cr & 0x02 != 0,
            write_port: cr & 0x04 != 0,
            output_mode,
            manual_output,
            c2_set_high,
            pulse_output: output_mode && !manual_output && cr & 0x08 != 0,
            enable_irq_2: !output_mode && cr & 0x08 != 0,
            c2_positive_trans: !output_mode && cr & 0x10 != 0,
            c2: if manual_output {
                if c2_set_high {
                    Signal::Rise
                } else {
                    Signal::Fall
                }
            } else {
                self.c2
            },
            ..self
        }
    }

    /// A CPU write of the control register: bits 6 and 7 (the interrupt flags)
    /// are kept, bits 0 to 5 come from `data`.
    pub open spec fn with_control(self, data: u8) -> PiaPort {
        PiaPort { cr: (self.cr & 0xC0) | (data & 0x3F), ..self }.decoded()
    }

    /// A read of the peripheral port clears both interrupt flags.
    pub open spec fn flags_cleared(self) -> PiaPort {
        PiaPort { cr: self.cr & 0x3F, ..self }
    }

    /// A write of register 0 or 2: into `or` when the port is selected, else into `ddr`.
    pub open spec fn with_data(self, data: u8) -> PiaPort {
        if self.write_port {
            PiaPort { or: data, ..self }
        } else {
            PiaPort { ddr: data, ddr_neg: !data, ..self }
        }
    }

    /// An edge received on control line 1.
    pub open spec fn c1_edge(self, s: Signal) -> PiaPort {
        if self.c1 != s && active_edge(self.c1_positive_trans) == s {
            let handshake = self.output_mode && !self.manual_output && !self.pulse_output;
            PiaPort {
                cr: self.cr | 0x80,
                c2: if handshake {
                    Signal::Rise
                } else {
                    self.c2
                },
                c1: s,
                ..self
            }
        } else {
            PiaPort { c1: s, ..self }
        }
    }

    /// An edge received on control line 2.
    pub open spec fn c2_edge(self, s: Signal) -> PiaPort {
        if self.c2 != s && active_edge(self.c2_positive_trans) == s {
            PiaPort { cr: self.cr | 0x40, c2: s, ..self }
        } else {
            PiaPort { c2: s, ..self }
        }
    }

    /// C2 after a write to the output port in output handshake mode: driven
    /// low, or pulsed back high at once in pulse mode.
    pub open spec fn after_output_write(self) -> PiaPort {
        if self.output_mode && !self.manual_output {
            PiaPort {
                c2: if self.pulse_output {
                    Signal::Rise
                } else {
                    Signal::Fall
                },
                ..self
            }
        } else {
            self
        }
    }

    fn reset_port(ir: u8, lines: Signal) -> (r: PiaPort)
        ensures
            r.or == 0 && r.ir == ir && r.ddr == 0 && r.ddr_neg == 0xFF && r.cr == 0,
            r.c1 == lines && r.c2 == lines,
            r.wf(),
    {
        let r = PiaPort {
            or: 0,
            ir,
            ddr: 0,
            ddr_neg: 0xFF,
            c1: lines,
            c2: lines,
            cr: 0,
            enable_irq_1: false,
            c1_positive_trans: false,
            write_port: false,
            enable_irq_2: false,
            pulse_output: false,
            c2_set_high: false,
            c2_positive_trans: false,
            manual_output: false,
            output_mode: false,
        };
        assert(!0u8 == 0xFFu8) by (bit_vector);
        assert(0u8 & 0x01 == 0 && 0u8 & 0x02 == 0 && 0u8 & 0x04 == 0 && 0u8 & 0x08 == 0 && 0u8
            & 0x10 == 0 && 0u8 & 0x20 == 0) by (bit_vector);
        r
    }

    fn decode_control(&mut self)
        requires
            old(self).ddr_neg == !old(self).ddr,
        ensures
            *final(self) == old(self).decoded(),
            final(self).wf(),
    {
        let cr = self.cr;
        self.enable_irq_1 = cr & 0x01 != 0;
        self.c1_positive_trans = cr & 0x02 != 0;
        self.write_port = cr & 0x04 != 0;
        self.output_mode = cr & 0x20 != 0;
        self.manual_output = self.output_mode && cr & 0x10 != 0;
        self.c2_set_high = self.manual_output && cr & 0x08 != 0;
        self.pulse_output = self.output_mode && !self.manual_output && cr & 0x08 != 0;
        self.enable_irq_2 = !self.output_mode && cr & 0x08 != 0;
        self.c2_positive_trans = !self.output_mode && cr & 0x10 != 0;
        if self.manual_output {
            self.c2 = if self.c2_set_high {
                Signal::Rise
            } else {
                Signal::Fall
            };
        }
    }

    fn write_control(&mut self, data: u8)
        requires
            old(self).wf(),
        ensures
            *final(self) == old(self).with_control(data),
            final(self).wf(),
    {
        self.cr = (self.cr & 0xC0) | (data & 0x3F);
        self.decode_control();
    }

    fn read_port(&mut self) -> (r: u8)
        requires
            old(self).wf(),
        ensures
            r == old(self).port_value(),
            *final(self) == old(self).flags_cleared(),
            final(self).wf(),
    {
        let data = (self.or & self.ddr) | (self.ir & self.ddr_neg);
        let ghost cr0 = self.cr;
        self.cr = self.cr & 0x3F;
        proof {
            lemma_low_bits_kept(cr0);
        }
        data
    }

    fn write_data(&mut self, data: u8)
        ensures
            *final(self) == old(self).with_data(data),
    {
        if self.write_port {
            self.or = data;
        } else {
            self.ddr = data;
            self.ddr_neg = !data;
        }
    }

    fn set_c1(&mut self, s: Signal)
        requires
            old(self).wf(),
        ensures
            *final(self) == old(self).c1_edge(s),
            final(self).wf(),
    {
        let active = if self.c1_positive_trans {
            Signal::Rise
        } else {
            Signal::Fall
        };
        if self.c1 != s && active == s {
            proof {
                lemma_low_bits_kept(self.cr);
            }
            self.cr = self.cr | 0x80;
            if self.output_mode && !self.manual_output && !self.pulse_output {
                self.c2 = Signal::Rise;
            }
        }
        self.c1 = s;
    }

    fn set_c2(&mut self, s: Signal)
        requires
            old(self).wf(),
        ensures
            *final(self) == old(self).c2_edge(s),
            final(self).wf(),
    {
        let active = if self.c2_positive_trans {
            Signal::Rise
        } else {
            Signal::Fall
        };
        if self.c2 != s && active == s {
            proof {
                lemma_low_bits_kept(self.cr);
            }
            self.cr = self.cr | 0x40;
        }
        self.c2 = s;
    }

    fn handshake_output(&mut self)
        ensures
            *final(self) == old(self).after_output_write(),
    {
        if self.output_mode && !self.manual_output {
            self.c2 = if self.pulse_output {
                Signal::Rise
            } else {
                Signal::Fall
            };
        }
    }
}

/// Setting or clearing the interrupt flags (bits 6 and 7) leaves the
/// configuration bits 0 to 5 as they were.
proof fn lemma_low_bits_kept(cr: u8)
    by (bit_vector)
    ensures
        (cr | 0x80) & 0x01 == cr & 0x01,
        (cr | 0x40) & 0x01 == cr & 0x01,
        (cr & 0x3F) & 0x01 == cr & 0x01,
        (cr | 0x80) & 0x02 == cr & 0x02,
        (cr | 0x40) & 0x02 == cr & 0x02,
        (cr & 0x3F) & 0x02 == cr & 0x02,
        (cr | 0x80) & 0x04 == cr & 0x04,
        (cr | 0x40) & 0x04 == cr & 0x04,
        (cr & 0x3F) & 0x04 == cr & 0x04,
        (cr | 0x80) & 0x08 == cr & 0x08,
        (cr | 0x40) & 0x08 == cr & 0x08,
        (cr & 0x3F) & 0x08 == cr & 0x08,
        (cr | 0x80) & 0x10 == cr & 0x10,
        (cr | 0x40) & 0x10 == cr & 0x10,
        (cr & 0x3F) & 0x10 == cr & 0x10,
        (cr | 0x80) & 0x20 == cr & 0x20,
        (cr | 0x40) & 0x20 == cr & 0x20,
        (cr & 0x3F) & 0x20 == cr & 0x20,
{
}

/// The abstract state of a PIA: both ports and the contents of its queues.
pub struct PiaModel {
    pub a: PiaPort,
    pub b: PiaPort,
    pub input: Seq<InputSignal>,
    pub output_a: Seq<u8>,
    pub output_b: Seq<u8>,
    pub interrupts: Seq<InterruptSignal>,
}

impl PiaModel {
    pub open spec fn irq_asserted(&self) -> bool {
        self.a.irq_asserted() || self.b.irq_asserted()
    }

    /// Replaces the ports and posts `IRQ` when the interrupt request goes
    /// from released to asserted.
    pub open spec fn with_ports(self, a: PiaPort, b: PiaPort) -> PiaModel {
        let rising = (a.irq_asserted() || b.irq_asserted()) && !self.irq_asserted();
        PiaModel {
            a,
            b,
            interrupts: if rising {
                self.interrupts.push(InterruptSignal::IRQ)
            } else {
                self.interrupts
            },
            ..self
        }
    }

    /// The effect of one input signal.
    pub open spec fn apply_signal(self, s: InputSignal) -> PiaModel {
        match s {
            InputSignal::IRA(v) => self.with_ports(PiaPort { ir: v, ..self.a }, self.b),
            InputSignal::IRB(v) => self.with_ports(self.a, PiaPort { ir: v, ..self.b }),
            InputSignal::CA1(e) => self.with_ports(self.a.c1_edge(e), self.b),
            InputSignal::CA2(e) => self.with_ports(self.a.c2_edge(e), self.b),
            InputSignal::CB1(e) => self.with_ports(self.a, self.b.c1_edge(e)),
            InputSignal::CB2(e) => self.with_ports(self.a, self.b.c2_edge(e)),
        }
    }

    /// The effect of the signals `q`, first to last.
    pub open spec fn apply_signals(self, q: Seq<InputSignal>) -> PiaModel
        decreases q.len(),
    {
        if q.len() == 0 {
            self
        } else {
            self.apply_signals(q.drop_last()).apply_signal(q.last())
        }
    }

    /// The state once every queued input signal has been applied.
    pub open spec fn drained(self) -> PiaModel {
        PiaModel { input: Seq::empty(), ..self }.apply_signals(self.input)
    }

    /// A CPU read of register `addr & 3`: the new state and the byte returned.
    pub open spec fn read(self, addr: u16) -> (PiaModel, u8) {
        let m = self.drained();
        let reg = addr & 3;
        if reg == 0 {
            (m.with_ports(m.a.flags_cleared(), m.b), m.a.port_value())
        } else if reg == 1 {
            (m, m.a.cr)
        } else if reg == 2 {
            (m.with_ports(m.a, m.b.flags_cleared()), m.b.port_value())
        } else {
            (m, m.b.cr)
        }
    }

    /// A CPU write of `data` to register `addr & 3`.
    pub open spec fn write(self, addr: u16, data: u8) -> PiaModel {
        let reg = addr & 3;
        if reg == 0 {
            let a = self.a.with_data(data);
            PiaModel {
                a,
                output_a: if self.a.write_port {
                    self.output_a.push(a.port_value())
                } else {
                    self.output_a
                },
                ..self
            }
        } else if reg == 1 {
            self.with_ports(self.a.with_control(data), self.b)
        } else if reg == 2 {
            if self.b.write_port {
                let b = self.b.with_data(data);
                PiaModel {
                    b: b.after_output_write(),
                    output_b: self.output_b.push(b.port_value()),
                    ..self
                }
            } else {
                PiaModel { b: self.b.with_data(data), ..self }
            }
        } else {
            self.with_ports(self.a, self.b.with_control(data))
        }
    }
}

/// A Motorola 6821 peripheral interface adapter. Peripherals talk to it
/// through queues: input signals wait in `input_queue` until the next CPU
/// read; bytes written to the ports and interrupt requests collect in the
/// output queues until the host takes them.
pub struct MC6821 {
    pub a: PiaPort,
    pub b: PiaPort,
    pub input_queue: Vec<InputSignal>,
    pub output_a: Vec<u8>,
    pub output_b: Vec<u8>,
    pub interrupts: Vec<InterruptSignal>,
}

impl View for MC6821 {
    type V = PiaModel;

    open spec fn view(&self) -> PiaModel {
        PiaModel {
            a: self.a,
            b: self.b,
            input: self.input_queue@,
            output_a: self.output_a@,
            output_b: self.output_b@,
            interrupts: self.interrupts@,
        }
    }
}

impl MC6821 {
    /// The decoded control bits of both ports agree with their control registers.
    pub open spec fn wf(&self) -> bool {
        self.a.wf() && self.b.wf()
    }

    /// A PIA after reset: registers clear, `IRA` and both `DDR_neg` at 0xFF,
    /// CA1 and CA2 high, CB1 and CB2 low, all queues empty.
    pub fn new() -> (r: MC6821)
        ensures
            r.wf(),
            r.a.or == 0 && r.a.ir == 0xFF && r.a.ddr == 0 && r.a.ddr_neg == 0xFF && r.a.cr == 0,
            r.b.or == 0 && r.b.ir == 0 && r.b.ddr == 0 && r.b.ddr_neg == 0xFF && r.b.cr == 0,
            r.a.c1 == Signal::Rise && r.a.c2 == Signal::Rise,
            r.b.c1 == Signal::Fall && r.b.c2 == Signal::Fall,
            r@.input.len() == 0 && r@.output_a.len() == 0 && r@.output_b.len() == 0,
            r@.interrupts.len() == 0,
    {
        MC6821 {
            a: PiaPort::reset_port(0xFF, Signal::Rise),
            b: PiaPort::reset_port(0, Signal::Fall),
            input_queue: Vec::new(),
            output_a: Vec::new(),
            output_b: Vec::new(),
            interrupts: Vec::new(),
        }
    }

    fn update_ports(&mut self, a: PiaPort, b: PiaPort)
        ensures
            final(self)@ == old(self)@.with_ports(a, b),
    {
        let before = (self.a.enable_irq_1 && self.a.cr & 0x80 != 0) || (self.a.enable_irq_2
            && self.a.cr & 0x40 != 0) || (self.b.enable_irq_1 && self.b.cr & 0x80 != 0) || (
        self.b.enable_irq_2 && self.b.cr & 0x40 != 0);
        let after = (a.enable_irq_1 && a.cr & 0x80 != 0) || (a.enable_irq_2 && a.cr & 0x40 != 0)
            || (b.enable_irq_1 && b.cr & 0x80 != 0) || (b.enable_irq_2 && b.cr & 0x40 != 0);
        self.a = a;
        self.b = b;
        if after && !before {
            self.interrupts.push(InterruptSignal::IRQ);
        }
    }

    fn apply_signal(&mut self, s: InputSignal)
        requires
            old(self).wf(),
        ensures
            final(self).wf(),
            final(self)@ == old(self)@.apply_signal(s),
    {
        let mut a = self.a;
        let mut b = self.b;
        match s {
            InputSignal::IRA(v) => {
                a.ir = v;
                assert(a == PiaPort { ir: v, ..self.a });
            },
            InputSignal::IRB(v) => {
                b.ir = v;
                assert(b == PiaPort { ir: v, ..self.b });
            },
            InputSignal::CA1(e) => a.set_c1(e),
            InputSignal::CA2(e) => a.set_c2(e),
            InputSignal::CB1(e) => b.set_c1(e),
            InputSignal::CB2(e) => b.set_c2(e),
        }
        self.update_ports(a, b);
    }

    /// Queues a signal from a peripheral; it takes effect at the next CPU read.
    pub fn send_input(&mut self, s: InputSignal)
        ensures
            final(self)@ == (PiaModel { input: old(self)@.input.push(s), ..old(self)@ }),
            final(self).wf() == old(self).wf(),
    {
        self.input_queue.push(s);
    }

    /// Applies every queued input signal, first to last, and empties the queue.
    pub fn process_input(&mut self)
        requires
            old(self).wf(),
        ensures
            final(self).wf(),
            final(self)@ == old(self)@.drained(),
    {
        let mut q: Vec<InputSignal> = Vec::new();
        std::mem::swap(&mut q, &mut self.input_queue);
        let ghost start = PiaModel { input: Seq::empty(), ..old(self)@ };
        let mut i: usize = 0;
        while i < q.len()
            invariant
                i <= q@.len(),
                q@ == old(self)@.input,
                self.wf(),
                self@ == start.apply_signals(q@.subrange(0, i as int)),
            decreases q@.len() - i,
        {
            let s = q[i];
            self.apply_signal(s);
            proof {
                assert(q@.subrange(0, i + 1).drop_last() =~= q@.subrange(0, i as int));
            }
            i = i + 1;
        }
        assert(q@.subrange(0, q@.len() as int) =~= q@);
    }

    /// Hands over the bytes written to port A since the last call.
    pub fn take_output_a(&mut self) -> (r: Vec<u8>)
        ensures
            r@ == old(self)@.output_a,
            final(self)@ == (PiaModel { output_a: Seq::empty(), ..old(self)@ }),
            final(self).wf() == old(self).wf(),
    {
        let mut r: Vec<u8> = Vec::new();
        std::mem::swap(&mut r, &mut self.output_a);
        r
    }

    /// Hands over the bytes written to port B since the last call.
    pub fn take_output_b(&mut self) -> (r: Vec<u8>)
        ensures
            r@ == old(self)@.output_b,
            final(self)@ == (PiaModel { output_b: Seq::empty(), ..old(self)@ }),
            final(self).wf() == old(self).wf(),
    {
        let mut r: Vec<u8> = Vec::new();
        std::mem::swap(&mut r, &mut self.output_b);
        r
    }

    /// Hands over the interrupt requests posted since the last call.
    pub fn take_interrupts(&mut self) -> (r: Vec<InterruptSignal>)
        ensures
            r@ == old(self)@.interrupts,
            final(self)@ == (PiaModel { interrupts: Seq::empty(), ..old(self)@ }),
            final(self).wf() == old(self).wf(),
    {
        let mut r: Vec<InterruptSignal> = Vec::new();
        std::mem::swap(&mut r, &mut self.interrupts);
        r
    }

    /// Sets the input register of port A directly.
    pub fn set_input_a(&mut self, v: u8)
        ensures
            final(self)@ == (PiaModel { a: PiaPort { ir: v, ..old(self).a }, ..old(self)@ }),
            final(self).wf() == old(self).wf(),
    {
        self.a.ir = v;
    }

    /// Sets the input register of port B directly.
    pub fn set_input_b(&mut self, v: u8)
        ensures
            final(self)@ == (PiaModel { b: PiaPort { ir: v, ..old(self).b }, ..old(self)@ }),
            final(self).wf() == old(self).wf(),
    {
        self.b.ir = v;
    }

    /// Receives an edge on CA1.
    pub fn set_ca1(&mut self, s: Signal)
        requires
            old(self).wf(),
        ensures
            final(self).wf(),
            final(self)@ == old(self)@.apply_signal(InputSignal::CA1(s)),
    {
        self.apply_signal(InputSignal::CA1(s));
    }

    /// Receives an edge on CA2.
    pub fn set_ca2(&mut self, s: Signal)
        requires
            old(self).wf(),
        ensures
            final(self).wf(),
            final(self)@ == old(self)@.apply_signal(InputSignal::CA2(s)),
    {
        self.apply_signal(InputSignal::CA2(s));
    }

    /// Receives an edge on CB1.
    pub fn set_cb1(&mut self, s: Signal)
        requires
            old(self).wf(),
        ensures
            final(self).wf(),
            final(self)@ == old(self)@.apply_signal(InputSignal::CB1(s)),
    {
        self.apply_signal(InputSignal::CB1(s));
    }

    /// Receives an edge on CB2.
    pub fn set_cb2(&mut self, s: Signal)
        requires
            old(self).wf(),
        ensures
            final(self).wf(),
            final(self)@ == old(self)@.apply_signal(InputSignal::CB2(s)),
    {
        self.apply_signal(InputSignal::CB2(s));
    }

    pub fn get_ca1(&self) -> (r: Signal)
        ensures
            r == self.a.c1,
    {
        self.a.c1
    }

    pub fn get_ca2(&self) -> (r: Signal)
        ensures
            r == self.a.c2,
    {
        self.a.c2
    }

    pub fn get_cb1(&self) -> (r: Signal)
        ensures
            r == self.b.c1,
    {
        self.b.c1
    }

    pub fn get_cb2(&self) -> (r: Signal)
        ensures
            r == self.b.c2,
    {
        self.b.c2
    }

    /// A CPU read of register `addr & 3` (PA, CRA, PB, CRB). Queued input is
    /// applied first; reading a port clears its interrupt flags.
    pub fn int_read(&mut self, addr: u16) -> (r: u8)
        requires
            old(self).wf(),
        ensures
            final(self).wf(),
            (final(self)@, r) == old(self)@.read(addr),
    {
        self.process_input();
        let reg = addr & 3;
        if reg == 0 {
            let mut a = self.a;
            let data = a.read_port();
            let b = self.b;
            self.update_ports(a, b);
            data
        } else if reg == 1 {
            self.a.cr
        } else if reg == 2 {
            let mut b = self.b;
            let data = b.read_port();
            let a = self.a;
            self.update_ports(a, b);
            data
        } else {
            self.b.cr
        }
    }

    /// A CPU write of `data` to register `addr & 3`. A port write with the
    /// port selected queues the resulting port value for the peripheral.
    pub fn int_write(&mut self, addr: u16, data: u8)
        requires
            old(self).wf(),
        ensures
            final(self).wf(),
            final(self)@ == old(self)@.write(addr, data),
    {
        let reg = addr & 3;
        if reg == 0 {
            let ghost a0 = self.a;
            self.a.write_data(data);
            proof {
                lemma_data_write_keeps_wf(a0, data);
            }
            if self.a.write_port {
                let out = (self.a.or & self.a.ddr) | (self.a.ir & self.a.ddr_neg);
                self.output_a.push(out);
            }
        } else if reg == 1 {
            let mut a = self.a;
            a.write_control(data);
            let b = self.b;
            self.update_ports(a, b);
        } else if reg == 2 {
            let ghost b0 = self.b;
            self.b.write_data(data);
            proof {
                lemma_data_write_keeps_wf(b0, data);
            }
            if self.b.write_port {
                let out = (self.b.or & self.b.ddr) | (self.b.ir & self.b.ddr_neg);
                self.output_b.push(out);
                self.b.handshake_output();
            }
        } else {
            let mut b = self.b;
            b.write_control(data);
            let a = self.a;
            self.update_ports(a, b);
        }
    }

    /// The PIA claims no memory of its own on the bus.
    pub fn len(&self) -> (r: usize)
        ensures
            r == 0,
    {
        0
    }
}

proof fn lemma_data_write_keeps_wf(p: PiaPort, data: u8)
    requires
        p.wf(),
    ensures
        p.with_data(data).wf(),
        p.with_data(data).write_port == p.write_port,
        p.with_data(data).after_output_write().wf(),
{
}

} // verus!
