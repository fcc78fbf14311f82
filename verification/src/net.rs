//! Addresses as plain values.

use vstd::prelude::*;

verus! {

/// An IP address: four octets, or the 128 bits of an IPv6 address.
#[derive(Clone, Copy, Debug, PartialEq, Eq, Structural, Hash)]
pub enum IpAddr {
    V4(u8, u8, u8, u8),
    V6(u128),
}

impl IpAddr {
    /// `127.0.0.0/8` for IPv4, `::1` for IPv6.
    pub open spec fn loopback(self) -> bool {
        match self {
            IpAddr::V4(a, _, _, _) => a == 127,
            IpAddr::V6(bits) => bits == 1,
        }
    }

    /// The IPv4 address that this address stands for: itself if it is one,
    /// `a.b.c.d` for `::a.b.c.d` and for `::ffff:a.b.c.d`, and none for any
    /// other IPv6 address.
    pub open spec fn ipv4(self) -> Option<IpAddr> {
        match self {
            IpAddr::V4(_, _, _, _) => Some(self),
            IpAddr::V6(bits) => if bits / 0x1_0000_0000 == 0 || bits / 0x1_0000_0000 == 0xffff {
                Some(
                    IpAddr::V4(
                        ((bits / 0x100_0000) % 0x100) as u8,
                        ((bits / 0x1_0000) % 0x100) as u8,
                        ((bits / 0x100) % 0x100) as u8,
                        (bits % 0x100) as u8,
                    ),
                )
            } else {
                None
            },
        }
    }

    pub fn to_ipv4(self) -> (v4: Option<IpAddr>)
        ensures
            v4 == self.ipv4(),
    {
        match self {
            IpAddr::V4(_, _, _, _) => Some(self),
            IpAddr::V6(bits) => {
                let high: u128 = bits / 0x1_0000_0000;
                if high == 0 || high == 0xffff {
                    let a: u128 = (bits / 0x100_0000) % 0x100;
                    let b: u128 = (bits / 0x1_0000) % 0x100;
                    let c: u128 = (bits / 0x100) % 0x100;
                    let d: u128 = bits % 0x100;
                    Some(IpAddr::V4(a as u8, b as u8, c as u8, d as u8))
                } else {
                    None
                }
            },
        }
    }

    /// The address in its shortest form: `a.b.c.d` for `::ffff:a.b.c.d`,
    /// and any other address as it is.
    pub open spec fn canonical(self) -> IpAddr {
        match self {
            IpAddr::V4(_, _, _, _) => self,
            IpAddr::V6(bits) => if bits / 0x1_0000_0000 == 0xffff {
                IpAddr::V4(
                    ((bits / 0x100_0000) % 0x100) as u8,
                    ((bits / 0x1_0000) % 0x100) as u8,
                    ((bits / 0x100) % 0x100) as u8,
                    (bits % 0x100) as u8,
                )
            } else {
                self
            },
        }
    }

    pub fn to_canonical(self) -> (ip: IpAddr)
        ensures
            ip == self.canonical(),
    {
        match self {
            IpAddr::V4(_, _, _, _) => self,
            IpAddr::V6(bits) => {
                let high: u128 = bits / 0x1_0000_0000;
                if high == 0xffff {
                    let a: u128 = (bits / 0x100_0000) % 0x100;
                    let b: u128 = (bits / 0x1_0000) % 0x100;
                    let c: u128 = (bits / 0x100) % 0x100;
                    let d: u128 = bits % 0x100;
                    IpAddr::V4(a as u8, b as u8, c as u8, d as u8)
                } else {
                    self
                }
            },
        }
    }

    pub fn is_loopback(self) -> (b: bool)
        ensures
            b == self.loopback(),
    {
        match self {
            IpAddr::V4(a, _, _, _) => a == 127,
            IpAddr::V6(bits) => bits == 1,
        }
    }
}

/// An IP address and a TCP port.
#[derive(Clone, Copy, Debug, PartialEq, Eq, Structural, Hash)]
pub struct SocketAddr {
    pub ip: IpAddr,
    pub port: u16,
}

impl SocketAddr {
    pub fn new(ip: IpAddr, port: u16) -> (a: SocketAddr)
        ensures
            a == (SocketAddr { ip, port }),
    {
        SocketAddr { ip, port }
    }
}

/// The port on which every proxy serves the overlay tunnel.
pub const OVERLAY_PORT: u16 = 15008;

/// The port that receives intercepted outbound traffic.
pub const OUTBOUND_PORT: u16 = 15001;

/// The port reserved for plaintext traffic between workloads of one node.
pub const INBOUND_PLAINTEXT_PORT: u16 = 15006;

} // verus!
