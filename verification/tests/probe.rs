use stlink::{
    DAPAccess, DebugProbe, Operation, ProbeError, ProbeSession, ProbeState, WireProtocol,
};

#[derive(Debug, PartialEq, Eq, Clone, Copy)]
struct Fault(u8);

struct Bench {
    calls: Vec<&'static str>,
    fail: Option<Fault>,
    register: u32,
    written: Vec<(u16, u16, u32)>,
    read: Vec<(u16, u32)>,
}

impl Bench {
    fn new() -> Self {
        Bench { calls: Vec::new(), fail: None, register: 0x2BA0_1477, written: Vec::new(), read: Vec::new() }
    }

    fn did(&mut self, what: &'static str) -> Result<(), Fault> {
        self.calls.push(what);
        match self.fail {
            Some(fault) => Err(fault),
            None => Ok(()),
        }
    }
}

impl DebugProbe for Bench {
    type Error = Fault;

    fn open(&mut self) -> Result<(), Fault> {
        self.did("open")
    }

    fn close(&mut self) -> Result<(), Fault> {
        self.did("close")
    }

    fn get_version(&mut self) -> Result<(u8, u8), Fault> {
        self.did("get_version").map(|_| (2, 29))
    }

    fn attach(&mut self, _protocol: WireProtocol) -> Result<(), Fault> {
        self.did("attach")
    }

    fn detach(&mut self) -> Result<(), Fault> {
        self.did("detach")
    }

    fn target_reset(&mut self) -> Result<(), Fault> {
        self.did("target_reset")
    }

    fn read_dap_register(&mut self, port: u16, addr: u32) -> Result<u32, Fault> {
        self.read.push((port, addr));
        let value = self.register;
        self.did("read").map(|_| value)
    }

    fn write_dap_register(&mut self, port: u16, addr: u16, value: u32) -> Result<(), Fault> {
        self.written.push((port, addr, value));
        self.did("write")
    }
}

const SWD: Operation = Operation::Attach { protocol: WireProtocol::Swd };
const ATTACHED: ProbeState = ProbeState::Attached { protocol: WireProtocol::Swd };

#[test]
fn transitions_from_closed() {
    let state = ProbeState::Closed;
    assert_eq!(state.after(Operation::Open), Some(ProbeState::Open));
    assert_eq!(state.after(Operation::Close), None);
    assert_eq!(state.after(Operation::GetVersion), None);
    assert_eq!(state.after(SWD), None);
    assert_eq!(state.after(Operation::Detach), None);
    assert_eq!(state.after(Operation::TargetReset), None);
    assert_eq!(state.after(Operation::ReadRegister), None);
    assert_eq!(state.after(Operation::WriteRegister), None);
}

#[test]
fn transitions_from_open() {
    let state = ProbeState::Open;
    assert_eq!(state.after(Operation::Open), None);
    assert_eq!(state.after(Operation::Close), Some(ProbeState::Closed));
    assert_eq!(state.after(Operation::GetVersion), Some(ProbeState::Open));
    assert_eq!(state.after(SWD), Some(ATTACHED));
    assert_eq!(
        state.after(Operation::Attach { protocol: WireProtocol::Jtag }),
        Some(ProbeState::Attached { protocol: WireProtocol::Jtag })
    );
    assert_eq!(state.after(Operation::Detach), None);
    assert_eq!(state.after(Operation::TargetReset), Some(ProbeState::Open));
    assert_eq!(state.after(Operation::ReadRegister), None);
    assert_eq!(state.after(Operation::WriteRegister), None);
}

#[test]
fn transitions_from_attached() {
    assert_eq!(ATTACHED.after(Operation::Open), None);
    assert_eq!(ATTACHED.after(Operation::Close), Some(ProbeState::Closed));
    assert_eq!(ATTACHED.after(Operation::GetVersion), Some(ATTACHED));
    assert_eq!(ATTACHED.after(SWD), None);
    assert_eq!(ATTACHED.after(Operation::Attach { protocol: WireProtocol::Jtag }), None);
    assert_eq!(ATTACHED.after(Operation::Detach), Some(ProbeState::Open));
    assert_eq!(ATTACHED.after(Operation::TargetReset), Some(ATTACHED));
    assert_eq!(ATTACHED.after(Operation::ReadRegister), Some(ATTACHED));
    assert_eq!(ATTACHED.after(Operation::WriteRegister), Some(ATTACHED));
}

#[test]
fn settle_moves_on_only_after_success() {
    let ok: Result<u32, Fault> = Ok(7);
    let bad: Result<u32, Fault> = Err(Fault(3));
    assert_eq!(ProbeState::Closed.settle(Operation::Open, ok), (ProbeState::Open, Ok(7)));
    assert_eq!(
        ProbeState::Closed.settle(Operation::Open, bad),
        (ProbeState::Closed, Err(ProbeError::Probe(Fault(3))))
    );
    assert_eq!(
        ProbeState::Open.settle(Operation::Open, ok),
        (ProbeState::Open, Err(ProbeError::InvalidState))
    );
    assert_eq!(
        ProbeState::Open.settle(Operation::ReadRegister, bad),
        (ProbeState::Open, Err(ProbeError::InvalidState))
    );
    assert_eq!(ATTACHED.settle(Operation::Close, ok), (ProbeState::Closed, Ok(7)));
    assert_eq!(ATTACHED.settle(Operation::Detach, bad), (ATTACHED, Err(ProbeError::Probe(Fault(3)))));
}

#[test]
fn session_starts_closed() {
    let session = ProbeSession::new(Bench::new());
    assert_eq!(session.state(), ProbeState::Closed);
    assert!(session.into_inner().calls.is_empty());
}

#[test]
fn session_walks_through_its_states() {
    let mut session = ProbeSession::new(Bench::new());
    assert_eq!(session.open(), Ok(()));
    assert_eq!(session.state(), ProbeState::Open);
    assert_eq!(session.get_version(), Ok((2, 29)));
    assert_eq!(session.state(), ProbeState::Open);
    assert_eq!(session.attach(WireProtocol::Swd), Ok(()));
    assert_eq!(session.state(), ATTACHED);
    assert_eq!(session.write_dap_register(0xFFFF, 0x2, 0x2), Ok(()));
    assert_eq!(session.read_dap_register(0xFFFF, 0x4), Ok(0x2BA0_1477));
    assert_eq!(session.target_reset(), Ok(()));
    assert_eq!(session.state(), ATTACHED);
    assert_eq!(session.detach(), Ok(()));
    assert_eq!(session.state(), ProbeState::Open);
    assert_eq!(session.close(), Ok(()));
    assert_eq!(session.state(), ProbeState::Closed);
    let bench = session.into_inner();
    assert_eq!(
        bench.calls,
        vec!["open", "get_version", "attach", "write", "read", "target_reset", "detach", "close"]
    );
    assert_eq!(bench.written, vec![(0xFFFF, 0x2, 0x2)]);
    assert_eq!(bench.read, vec![(0xFFFF, 0x4)]);
}

#[test]
fn register_read_before_attach_is_invalid() {
    let mut session = ProbeSession::new(Bench::new());
    assert_eq!(session.read_dap_register(0, 0), Err(ProbeError::InvalidState));
    assert_eq!(session.write_dap_register(0, 0, 1), Err(ProbeError::InvalidState));
    assert_eq!(session.open(), Ok(()));
    assert_eq!(session.read_dap_register(0, 0), Err(ProbeError::InvalidState));
    assert_eq!(session.write_dap_register(0, 0, 1), Err(ProbeError::InvalidState));
    assert_eq!(session.read_register(0, 0), Err(ProbeError::InvalidState));
    assert_eq!(session.write_register(0, 0, 1), Err(ProbeError::InvalidState));
    assert_eq!(session.state(), ProbeState::Open);
    assert_eq!(session.into_inner().calls, vec!["open"]);
}

#[test]
fn attach_twice_is_invalid() {
    let mut session = ProbeSession::new(Bench::new());
    assert_eq!(session.open(), Ok(()));
    assert_eq!(session.attach(WireProtocol::Swd), Ok(()));
    assert_eq!(session.attach(WireProtocol::Swd), Err(ProbeError::InvalidState));
    assert_eq!(session.attach(WireProtocol::Jtag), Err(ProbeError::InvalidState));
    assert_eq!(session.state(), ATTACHED);
    assert_eq!(session.detach(), Ok(()));
    assert_eq!(session.attach(WireProtocol::Jtag), Ok(()));
    assert_eq!(session.state(), ProbeState::Attached { protocol: WireProtocol::Jtag });
    assert_eq!(session.close(), Ok(()));
    assert_eq!(session.open(), Ok(()));
    assert_eq!(session.attach(WireProtocol::Swd), Ok(()));
    assert_eq!(session.into_inner().calls, vec!["open", "attach", "detach", "attach", "close", "open", "attach"]);
}

#[test]
fn attach_before_open_is_invalid() {
    let mut session = ProbeSession::new(Bench::new());
    assert_eq!(session.attach(WireProtocol::Swd), Err(ProbeError::InvalidState));
    assert_eq!(session.detach(), Err(ProbeError::InvalidState));
    assert_eq!(session.state(), ProbeState::Closed);
    assert!(session.into_inner().calls.is_empty());
}

#[test]
fn close_without_a_session_is_invalid() {
    let mut session = ProbeSession::new(Bench::new());
    assert_eq!(session.close(), Err(ProbeError::InvalidState));
    assert_eq!(session.open(), Ok(()));
    assert_eq!(session.close(), Ok(()));
    assert_eq!(session.close(), Err(ProbeError::InvalidState));
    assert_eq!(session.state(), ProbeState::Closed);
    assert_eq!(session.into_inner().calls, vec!["open", "close"]);
}

#[test]
fn close_detaches_on_the_way() {
    let mut session = ProbeSession::new(Bench::new());
    assert_eq!(session.open(), Ok(()));
    assert_eq!(session.attach(WireProtocol::Swd), Ok(()));
    assert_eq!(session.close(), Ok(()));
    assert_eq!(session.state(), ProbeState::Closed);
    assert_eq!(session.detach(), Err(ProbeError::InvalidState));
}

#[test]
fn open_twice_is_invalid() {
    let mut session = ProbeSession::new(Bench::new());
    assert_eq!(session.open(), Ok(()));
    assert_eq!(session.open(), Err(ProbeError::InvalidState));
    assert_eq!(session.into_inner().calls, vec!["open"]);
}

#[test]
fn reset_and_version_need_a_session() {
    let mut session = ProbeSession::new(Bench::new());
    assert_eq!(session.target_reset(), Err(ProbeError::InvalidState));
    assert_eq!(session.get_version(), Err(ProbeError::InvalidState));
    assert_eq!(session.open(), Ok(()));
    assert_eq!(session.target_reset(), Ok(()));
    assert_eq!(session.get_version(), Ok((2, 29)));
}

#[test]
fn error_of_the_probe_leaves_the_state() {
    let mut bench = Bench::new();
    bench.fail = Some(Fault(9));
    let mut session = ProbeSession::new(bench);
    assert_eq!(session.open(), Err(ProbeError::Probe(Fault(9))));
    assert_eq!(session.state(), ProbeState::Closed);
    assert_eq!(session.into_inner().calls, vec!["open"]);

    let mut session = ProbeSession::new(Bench::new());
    assert_eq!(session.open(), Ok(()));
    let mut bench = session.into_inner();
    bench.fail = Some(Fault(4));
    let mut session = ProbeSession::new(bench);
    assert_eq!(session.attach(WireProtocol::Swd), Err(ProbeError::InvalidState));
    assert_eq!(session.open(), Err(ProbeError::Probe(Fault(4))));
    assert_eq!(session.state(), ProbeState::Closed);
}

#[test]
fn registers_go_through_the_access_trait() {
    let mut session = ProbeSession::new(Bench::new());
    assert_eq!(session.open(), Ok(()));
    assert_eq!(session.attach(WireProtocol::Swd), Ok(()));
    assert_eq!(session.write_register(1, 8, 0xAB), Ok(()));
    assert_eq!(session.read_register(1, 0xC), Ok(0x2BA0_1477));
    let bench = session.into_inner();
    assert_eq!(bench.written, vec![(1, 8, 0xAB)]);
    assert_eq!(bench.read, vec![(1, 0xC)]);
}
