use vstd::prelude::*;

use crate::destination::Destination;
use crate::telemetry::NodeIdentity;

verus! {

/// The publishing period used when none is configured, in milliseconds.
pub const DEFAULT_INTERVAL_MS: u64 = 1000;

/// The settings a node starts with.
#[derive(Clone, Debug)]
pub struct Config {
    pub area: String,
    pub flow_name: String,
    pub target_ip: String,
    pub target_port: u16,
    pub outbound_port_data: u16,
    pub outbound_port_acks: Option<u16>,
    pub inbound_port: u16,
    pub interval: Option<u64>,
    pub inbound_poll_interval: Option<u64>,
}

/// Settings given one by one, each possibly absent, with defaults for the
/// optional ones.
pub struct ConfigArguments {
    pub area: Option<String>,
    pub flow: Option<String>,
    pub target_ip: Option<String>,
    pub target_port: Option<u16>,
    pub outbound_port_data: Option<u16>,
    pub outbound_port_acks: u16,
    pub inbound_port: Option<u16>,
    pub interval: u64,
    pub inbound_poll_interval: u64,
}

/// A required setting that was not given.
#[derive(Clone, Copy, Debug, PartialEq, Eq, Structural)]
pub enum MissingArgument {
    Area,
    Flow,
    TargetIp,
    TargetPort,
    OutboundPortData,
    InboundPort,
}

/// The first required setting that `args` lacks, if any.
pub open spec fn first_missing(args: ConfigArguments) -> Option<MissingArgument> {
    if args.area is None {
        Some(MissingArgument::Area)
    } else if args.flow is None {
        Some(MissingArgument::Flow)
    } else if args.target_ip is None {
        Some(MissingArgument::TargetIp)
    } else if args.target_port is None {
        Some(MissingArgument::TargetPort)
    } else if args.outbound_port_data is None {
        Some(MissingArgument::OutboundPortData)
    } else if args.inbound_port is None {
        Some(MissingArgument::InboundPort)
    } else {
        None
    }
}

/// Whether `c` holds exactly the settings of `args`, all of them present.
pub open spec fn config_of_arguments(c: Config, args: ConfigArguments) -> bool {
    &&& args.area matches Some(a) && c.area@ == a@
    &&& args.flow matches Some(f) && c.flow_name@ == f@
    &&& args.target_ip matches Some(t) && c.target_ip@ == t@
    &&& args.target_port == Some(c.target_port)
    &&& args.outbound_port_data == Some(c.outbound_port_data)
    &&& args.inbound_port == Some(c.inbound_port)
    &&& c.outbound_port_acks == Some(args.outbound_port_acks)
    &&& c.interval == Some(args.interval)
    &&& c.inbound_poll_interval == Some(args.inbound_poll_interval)
}

/// Whether `after` is `before` with each absent optional setting taken from `args`.
pub open spec fn filled_from(after: Config, before: Config, args: ConfigArguments) -> bool {
    &&& after.area@ == before.area@
    &&& after.flow_name@ == before.flow_name@
    &&& after.target_ip@ == before.target_ip@
    &&& after.target_port == before.target_port
    &&& after.outbound_port_data == before.outbound_port_data
    &&& after.inbound_port == before.inbound_port
    &&& after.outbound_port_acks == (if before.outbound_port_acks is Some {
        before.outbound_port_acks
    } else {
        Some(args.outbound_port_acks)
    })
    &&& after.interval == (if before.interval is Some {
        before.interval
    } else {
        Some(args.interval)
    })
    &&& after.inbound_poll_interval == (if before.inbound_poll_interval is Some {
        before.inbound_poll_interval
    } else {
        Some(args.inbound_poll_interval)
    })
}

impl Config {
    /// Builds the settings from arguments alone; every required one must be there.
    pub fn from_arguments(args: ConfigArguments) -> (r: Result<Config, MissingArgument>)
        ensures
            match first_missing(args) {
                Some(m) => r == Err::<Config, MissingArgument>(m),
                None => r matches Ok(c) && config_of_arguments(c, args),
            },
    {
        let area = match args.area {
            Some(a) => a,
            None => return Err(MissingArgument::Area),
        };
        let flow_name = match args.flow {
            Some(f) => f,
            None => return Err(MissingArgument::Flow),
        };
        let target_ip = match args.target_ip {
            Some(t) => t,
            None => return Err(MissingArgument::TargetIp),
        };
        let target_port = match args.target_port {
            Some(p) => p,
            None => return Err(MissingArgument::TargetPort),
        };
        let outbound_port_data = match args.outbound_port_data {
            Some(p) => p,
            None => return Err(MissingArgument::OutboundPortData),
        };
        let inbound_port = match args.inbound_port {
            Some(p) => p,
            None => return Err(MissingArgument::InboundPort),
        };
        Ok(Config {
            area,
            flow_name,
            target_ip,
            target_port,
            outbound_port_data,
            outbound_port_acks: Some(args.outbound_port_acks),
            inbound_port,
            interval: Some(args.interval),
            inbound_poll_interval: Some(args.inbound_poll_interval),
        })
    }

    /// Takes each absent optional setting from `args`, keeping the rest.
    pub fn fill_defaults(&mut self, args: &ConfigArguments)
        ensures
            filled_from(*final(self), *old(self), *args),
    {
        if self.outbound_port_acks.is_none() {
            self.outbound_port_acks = Some(args.outbound_port_acks);
        }
        if self.interval.is_none() {
            self.interval = Some(args.interval);
        }
        if self.inbound_poll_interval.is_none() {
            self.inbound_poll_interval = Some(args.inbound_poll_interval);
        }
    }

    /// The settings a node runs with: those of a loaded file, completed from
    /// `args`, or else `args` alone.
    pub fn resolve(file: Option<Config>, args: ConfigArguments) -> (r: Result<Config, MissingArgument>)
        ensures
            match file {
                Some(f) => r matches Ok(c) && filled_from(c, f, args),
                None => match first_missing(args) {
                    Some(m) => r == Err::<Config, MissingArgument>(m),
                    None => r matches Ok(c) && config_of_arguments(c, args),
                },
            },
    {
        match file {
            Some(f) => {
                let mut c = f;
                c.fill_defaults(&args);
                Ok(c)
            },
            None => Config::from_arguments(args),
        }
    }

    /// Where telemetry goes until the first redirect.
    pub fn initial_destination(&self) -> (r: Destination)
        ensures
            r@ == (self.target_ip@, self.target_port),
    {
        Destination { host: self.target_ip.clone(), port: self.target_port }
    }

    /// The labels of this node's readings.
    pub fn identity(&self) -> (r: NodeIdentity)
        ensures
            r.area@ == self.area@,
            r.flow_name@ == self.flow_name@,
    {
        NodeIdentity { area: self.area.clone(), flow_name: self.flow_name.clone() }
    }

    /// The publishing period in milliseconds.
    pub fn interval_ms(&self) -> (r: u64)
        ensures
            r == match self.interval {
                Some(i) => i,
                None => DEFAULT_INTERVAL_MS,
            },
    {
        match self.interval {
            Some(i) => i,
            None => DEFAULT_INTERVAL_MS,
        }
    }

    /// The local port acknowledgments and probe answers leave from; 0 lets
    /// the system choose.
    pub fn ack_port(&self) -> (r: u16)
        ensures
            r == match self.outbound_port_acks {
                Some(p) => p,
                None => 0,
            },
    {
        match self.outbound_port_acks {
            Some(p) => p,
            None => 0,
        }
    }
}

} // verus!
