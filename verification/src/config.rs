//! The runtime configuration of one startup, and what the device engine is
//! handed from it.

use crate::decimal::{
    decimal, decimal_value, lemma_decimal_digits, lemma_decimal_value, render_decimal,
};
use boringtun::device::DeviceConfig;
use std::borrow::Cow;
use vstd::prelude::*;

verus! {

/// `boringtun::device::DeviceConfig`, the settings that the device engine is
/// created with, as it is built for Linux. Its fields are public and plain:
/// the worker-thread count, the switches for connected sockets and for
/// several queues, and the control-interface descriptor.
#[verifier::external_type_specification]
pub struct ExDeviceConfig(DeviceConfig);

/// How much is logged, from the least to the most.
#[derive(Clone, Copy, Debug, PartialEq, Eq, Structural)]
pub enum Verbosity {
    Error,
    Warn,
    Info,
    Debug,
    Trace,
}

/// Why a configuration cannot be started from.
#[derive(Clone, Copy, Debug, PartialEq, Eq, Structural)]
pub enum ConfigurationError {
    /// The device engine was given no worker thread.
    NoThreads,
}

/// Checks the name of an interface to create. Every name is taken as it is:
/// whether a device of that name can be had is for the device engine to say.
pub fn check_tun_name(v: &str) -> (checked: Result<String, String>)
    ensures
        checked matches Ok(name) && name@ == v@,
{
    Ok(v.to_owned())
}

/// The parameters of one startup, fixed before the startup begins.
pub struct Args {
    /// The name of the created interface.
    pub interface_name: String,
    /// Run and log in the foreground.
    pub foreground: bool,
    /// Number of worker threads of the device engine.
    pub threads: usize,
    /// Log verbosity.
    pub verbosity: Verbosity,
    /// Descriptor of an open control-interface socket; negative for none.
    pub uapi_fd: i32,
    /// Descriptor of an open tunnel device; negative for none.
    pub tun_fd: i32,
    /// Path of the log file of a backgrounded worker.
    pub log: String,
    /// Keep elevated privileges after the device is live.
    pub disable_drop_privileges: bool,
    /// Do not connect a socket to each peer.
    pub disable_connected_udp: bool,
    /// Do not open one tunnel queue per worker thread.
    pub disable_multi_queue: bool,
}

impl Args {
    /// The configuration that creates `interface_name` when nothing else is
    /// asked for.
    pub open spec fn spec_new(interface_name: Seq<char>, made: Args) -> bool {
        &&& made.interface_name@ == interface_name
        &&& !made.foreground
        &&& made.threads == 4
        &&& made.verbosity == Verbosity::Error
        &&& made.uapi_fd == -1
        &&& made.tun_fd == -1
        &&& made.log@ == "/tmp/boringtun.out"@
        &&& !made.disable_drop_privileges
        &&& !made.disable_connected_udp
        &&& !made.disable_multi_queue
    }

    /// A configuration for `interface_name` with every other parameter at
    /// its default: a backgrounded worker with four threads that logs errors
    /// to `/tmp/boringtun.out`, is handed no descriptor, drops its privileges,
    /// and uses connected sockets and several queues.
    pub fn new(interface_name: String) -> (made: Args)
        ensures
            Self::spec_new(interface_name@, made),
            made.wf(),
    {
        Args {
            interface_name,
            foreground: false,
            threads: 4,
            verbosity: Verbosity::Error,
            uapi_fd: -1,
            tun_fd: -1,
            log: "/tmp/boringtun.out".to_owned(),
            disable_drop_privileges: false,
            disable_connected_udp: false,
            disable_multi_queue: false,
        }
    }

    /// Whether the configuration can be started from: the device engine has
    /// at least one worker thread.
    pub open spec fn wf(&self) -> bool {
        self.threads >= 1
    }

    /// Where a backgrounded worker logs: the configured file. In the
    /// foreground there is no log file.
    pub open spec fn spec_log_destination(&self) -> Option<Seq<char>> {
        if self.foreground {
            None
        } else {
            Some(self.log@)
        }
    }

    /// Accepts the configuration, or says what is wrong with it.
    pub fn validate(&self) -> (checked: Result<(), ConfigurationError>)
        ensures
            checked is Ok <==> self.wf(),
            checked is Err ==> checked == Err::<(), ConfigurationError>(
                ConfigurationError::NoThreads,
            ),
    {
        if self.threads >= 1 {
            Ok(())
        } else {
            Err(ConfigurationError::NoThreads)
        }
    }

    /// The path of the log file to create, or `None` in the foreground, where
    /// logging goes to the terminal and no file is made.
    pub fn log_destination(&self) -> (path: Option<String>)
        ensures
            path is Some <==> !self.foreground,
            path matches Some(p) ==> p@ == self.log@,
            self.spec_log_destination() == match path {
                Some(p) => Some(p@),
                None => None,
            },
    {
        if self.foreground {
            None
        } else {
            Some(self.log.clone())
        }
    }

    /// What the device engine is asked to open: the numeral of the tunnel
    /// descriptor where one was supplied, the interface name otherwise.
    pub open spec fn spec_tun_name(&self) -> Seq<char> {
        if self.tun_fd >= 0 {
            decimal(self.tun_fd as nat)
        } else {
            self.interface_name@
        }
    }

    /// The text handed to the device engine as the tunnel's name. A supplied
    /// descriptor takes the place of the name; a negative one stands for none.
    /// The name is lent, the numeral is made anew.
    pub fn tun_name(&self) -> (name: Cow<'_, str>)
        ensures
            name@ == self.spec_tun_name(),
            name is Owned <==> self.tun_fd >= 0,
    {
        if self.tun_fd >= 0 {
            return Cow::Owned(render_decimal(self.tun_fd as u32));
        }
        Cow::Borrowed(self.interface_name.as_str())
    }

    /// The device engine's settings under this configuration.
    pub fn device_config(&self) -> (config: DeviceConfig)
        ensures
            config.n_threads == self.threads,
            config.uapi_fd == self.uapi_fd,
            config.use_connected_socket == !self.disable_connected_udp,
            config.use_multi_queue == !self.disable_multi_queue,
    {
        DeviceConfig {
            n_threads: self.threads,
            uapi_fd: self.uapi_fd,
            use_connected_socket: !self.disable_connected_udp,
            use_multi_queue: !self.disable_multi_queue,
        }
    }
}

/// A supplied tunnel descriptor is handed on as a plain numeral: digits
/// only, reading back as the descriptor itself, so that two descriptors never
/// give one name. Without a descriptor the interface name is handed on
/// untouched.
pub proof fn lemma_tun_name_of_descriptor(args: &Args)
    ensures
        args.tun_fd >= 0 ==> decimal_value(args.spec_tun_name()) == args.tun_fd,
        args.tun_fd >= 0 ==> args.spec_tun_name().len() >= 1,
        args.tun_fd >= 0 ==> forall|i: int|
            0 <= i < args.spec_tun_name().len() ==> '0' <= #[trigger] args.spec_tun_name()[i]
                <= '9',
        args.tun_fd < 0 ==> args.spec_tun_name() == args.interface_name@,
{
    if args.tun_fd >= 0 {
        lemma_decimal_value(args.tun_fd as nat);
        lemma_decimal_digits(args.tun_fd as nat);
    }
}

} // verus!
