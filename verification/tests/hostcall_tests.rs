use msvisor::hostcall::{CommonHostCall, HostCallID, IsolationContext};

#[test]
fn format_hostcall_id() {
    let result = CommonHostCall::Write;
    assert!(
        result.name().eq("write"),
        "actual format result is {}",
        result.name()
    )
}

#[test]
fn routing_common_calls() {
    assert_eq!(HostCallID::Common(CommonHostCall::Metric).belong_to(), "");
    assert_eq!(HostCallID::Common(CommonHostCall::FsImage).belong_to(), "");
    assert_eq!(
        HostCallID::Common(CommonHostCall::Write).belong_to(),
        "fdtab"
    );
    assert_eq!(HostCallID::Common(CommonHostCall::Open).belong_to(), "fdtab");
    assert_eq!(HostCallID::Common(CommonHostCall::Read).belong_to(), "fdtab");
    assert_eq!(
        HostCallID::Common(CommonHostCall::Close).belong_to(),
        "fdtab"
    );
    assert_eq!(
        HostCallID::Common(CommonHostCall::Connect).belong_to(),
        "fdtab"
    );
    assert_eq!(
        HostCallID::Common(CommonHostCall::Socket).belong_to(),
        "fdtab"
    );
    assert_eq!(HostCallID::Common(CommonHostCall::Bind).belong_to(), "fdtab");
    assert_eq!(
        HostCallID::Common(CommonHostCall::Accept).belong_to(),
        "fdtab"
    );
    assert_eq!(
        HostCallID::Common(CommonHostCall::Stdout).belong_to(),
        "stdio"
    );
    assert_eq!(
        HostCallID::Common(CommonHostCall::FatfsOpen).belong_to(),
        "fatfs"
    );
    assert_eq!(
        HostCallID::Common(CommonHostCall::FatfsWrite).belong_to(),
        "fatfs"
    );
    assert_eq!(
        HostCallID::Common(CommonHostCall::FatfsRead).belong_to(),
        "fatfs"
    );
    assert_eq!(
        HostCallID::Common(CommonHostCall::FatfsClose).belong_to(),
        "fatfs"
    );
    assert_eq!(
        HostCallID::Common(CommonHostCall::SmoltcpAddrInfo).belong_to(),
        "socket"
    );
    assert_eq!(
        HostCallID::Common(CommonHostCall::SmoltcpConnect).belong_to(),
        "socket"
    );
    assert_eq!(
        HostCallID::Common(CommonHostCall::SmoltcpSend).belong_to(),
        "socket"
    );
    assert_eq!(
        HostCallID::Common(CommonHostCall::SmoltcpRecv).belong_to(),
        "socket"
    );
    assert_eq!(
        HostCallID::Common(CommonHostCall::SmoltcpBind).belong_to(),
        "socket"
    );
    assert_eq!(
        HostCallID::Common(CommonHostCall::SmoltcpAccept).belong_to(),
        "socket"
    );
    assert_eq!(
        HostCallID::Common(CommonHostCall::SmoltcpClose).belong_to(),
        "socket"
    );
    assert_eq!(
        HostCallID::Common(CommonHostCall::BufferAlloc).belong_to(),
        "buffer"
    );
    assert_eq!(
        HostCallID::Common(CommonHostCall::AccessBuffer).belong_to(),
        "buffer"
    );
    assert_eq!(
        HostCallID::Common(CommonHostCall::BufferDealloc).belong_to(),
        "buffer"
    );
    assert_eq!(
        HostCallID::Common(CommonHostCall::GetTime).belong_to(),
        "time"
    );
}

#[test]
fn routing_custom_fails_fast() {
    let id = HostCallID::Custom(String::from("my_plugin_call"));
    assert!(id.route().is_none());
    let id = HostCallID::Common(CommonHostCall::GetTime);
    assert_eq!(id.route(), Some(String::from("time")));
}

#[test]
fn bootstrap_context_is_zero() {
    let ctx = IsolationContext::default();
    assert_eq!(ctx.isol_id, 0);
    assert_eq!(ctx.find_handler, 0);
    assert_eq!(ctx.panic_handler, 0);
    assert_eq!(ctx.heap_range, (0, 0));
}
