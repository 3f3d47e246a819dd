//! What a session is started with.

use vstd::prelude::*;

verus! {

/// Why a configuration was refused.
#[derive(Clone, Copy, Debug, PartialEq, Eq, Structural)]
pub enum ConfigError {
    /// The baud rate was zero.
    ZeroBaud,
}

/// The settings of one session. They are fixed when the session starts.
#[derive(Debug)]
pub struct Config {
    port: String,
    baud: u32,
    idle_timeout: Option<u64>,
}

/// A [`Config`] as contracts speak of it.
pub struct ConfigView {
    /// The name of the serial device.
    pub port: Seq<char>,
    /// The baud rate; never zero.
    pub baud: u32,
    /// The silence after which the session ends, in milliseconds, if any.
    pub idle_timeout: Option<u64>,
}

impl View for Config {
    type V = ConfigView;

    closed spec fn view(&self) -> ConfigView {
        ConfigView { port: self.port@, baud: self.baud, idle_timeout: self.idle_timeout }
    }
}

impl Config {
    #[verifier::type_invariant]
    spec fn has_a_baud_rate(self) -> bool {
        self.baud > 0
    }

    /// Makes a configuration of a port's name, a baud rate and, where the
    /// session is to end after a silence, the length of that silence in
    /// milliseconds. A baud rate of zero is refused, and nothing else is.
    pub fn new(port: String, baud: u32, idle_timeout: Option<u64>) -> (made: Result<
        Config,
        ConfigError,
    >)
        ensures
            baud == 0 ==> made == Err::<Config, ConfigError>(ConfigError::ZeroBaud),
            baud > 0 ==> made is Ok && made->Ok_0@ == (ConfigView {
                port: port@,
                baud,
                idle_timeout,
            }),
    {
        if baud == 0 {
            Err(ConfigError::ZeroBaud)
        } else {
            Ok(Config { port, baud, idle_timeout })
        }
    }

    /// The name of the serial device.
    pub fn port(&self) -> (port: &str)
        ensures
            port@ == self@.port,
    {
        self.port.as_str()
    }

    /// The baud rate, which is not zero.
    pub fn baud(&self) -> (baud: u32)
        ensures
            baud == self@.baud,
            baud > 0,
    {
        proof {
            use_type_invariant(self);
        }
        self.baud
    }

    /// The silence after which the session ends, in milliseconds, if any.
    pub fn idle_timeout(&self) -> (limit: Option<u64>)
        ensures
            limit == self@.idle_timeout,
    {
        self.idle_timeout
    }
}

} // verus!
