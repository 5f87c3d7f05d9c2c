use vstd::prelude::*;

verus! {

/// Readiness flags of one registered source. The cancel flags are set only
/// by an explicit cancel and cleared only when a poll acknowledges them.
#[derive(Clone, Copy, PartialEq, Eq, Structural, Debug)]
pub struct Ready {
    pub readable: bool,
    pub read_closed: bool,
    pub read_canceled: bool,
    pub writable: bool,
    pub write_closed: bool,
    pub write_canceled: bool,
}

/// The readiness an operation waits for.
#[derive(Clone, Copy, PartialEq, Eq, Structural, Debug)]
pub enum Direction {
    Read,
    Write,
    ReadOrWrite,
}

pub open spec fn union(a: Ready, b: Ready) -> Ready {
    Ready {
        readable: a.readable || b.readable,
        read_closed: a.read_closed || b.read_closed,
        read_canceled: a.read_canceled || b.read_canceled,
        writable: a.writable || b.writable,
        write_closed: a.write_closed || b.write_closed,
        write_canceled: a.write_canceled || b.write_canceled,
    }
}

pub open spec fn intersection(a: Ready, b: Ready) -> Ready {
    Ready {
        readable: a.readable && b.readable,
        read_closed: a.read_closed && b.read_closed,
        read_canceled: a.read_canceled && b.read_canceled,
        writable: a.writable && b.writable,
        write_closed: a.write_closed && b.write_closed,
        write_canceled: a.write_canceled && b.write_canceled,
    }
}

/// `a` without the flags of `b`.
pub open spec fn difference(a: Ready, b: Ready) -> Ready {
    Ready {
        readable: a.readable && !b.readable,
        read_closed: a.read_closed && !b.read_closed,
        read_canceled: a.read_canceled && !b.read_canceled,
        writable: a.writable && !b.writable,
        write_closed: a.write_closed && !b.write_closed,
        write_canceled: a.write_canceled && !b.write_canceled,
    }
}

pub open spec fn empty_spec() -> Ready {
    Ready {
        readable: false,
        read_closed: false,
        read_canceled: false,
        writable: false,
        write_closed: false,
        write_canceled: false,
    }
}

pub open spec fn is_empty_spec(r: Ready) -> bool {
    r == empty_spec()
}

pub open spec fn has_read(r: Ready) -> bool {
    r.readable || r.read_closed || r.read_canceled
}

pub open spec fn has_write(r: Ready) -> bool {
    r.writable || r.write_closed || r.write_canceled
}

pub open spec fn read_mask() -> Ready {
    Ready {
        readable: true,
        read_closed: true,
        read_canceled: true,
        writable: false,
        write_closed: false,
        write_canceled: false,
    }
}

pub open spec fn write_mask() -> Ready {
    Ready {
        readable: false,
        read_closed: false,
        read_canceled: false,
        writable: true,
        write_closed: true,
        write_canceled: true,
    }
}

/// The flags that concern an operation waiting in direction `d`.
pub open spec fn mask_spec(d: Direction) -> Ready {
    match d {
        Direction::Read => read_mask(),
        Direction::Write => write_mask(),
        Direction::ReadOrWrite => union(read_mask(), write_mask()),
    }
}

/// The cancel flags for direction `d`.
pub open spec fn cancel_bits(d: Direction) -> Ready {
    Ready {
        readable: false,
        read_closed: false,
        read_canceled: !(d is Write),
        writable: false,
        write_closed: false,
        write_canceled: !(d is Read),
    }
}

impl Ready {
    pub fn empty() -> (r: Ready)
        ensures
            r == empty_spec(),
    {
        Ready {
            readable: false,
            read_closed: false,
            read_canceled: false,
            writable: false,
            write_closed: false,
            write_canceled: false,
        }
    }

    /// The readiness a poller event reports.
    pub fn from_event(readable: bool, writable: bool, read_closed: bool, write_closed: bool) -> (r: Ready)
        ensures
            r == (Ready {
                readable,
                read_closed,
                read_canceled: false,
                writable,
                write_closed,
                write_canceled: false,
            }),
    {
        Ready {
            readable,
            read_closed,
            read_canceled: false,
            writable,
            write_closed,
            write_canceled: false,
        }
    }

    pub fn is_empty(&self) -> (r: bool)
        ensures
            r == is_empty_spec(*self),
    {
        !(self.readable || self.read_closed || self.read_canceled || self.writable
            || self.write_closed || self.write_canceled)
    }

    /// Whether either cancel flag is set.
    pub fn is_canceled(&self) -> (r: bool)
        ensures
            r == (self.read_canceled || self.write_canceled),
    {
        self.read_canceled || self.write_canceled
    }

    pub fn union(&self, o: Ready) -> (r: Ready)
        ensures
            r == union(*self, o),
    {
        Ready {
            readable: self.readable || o.readable,
            read_closed: self.read_closed || o.read_closed,
            read_canceled: self.read_canceled || o.read_canceled,
            writable: self.writable || o.writable,
            write_closed: self.write_closed || o.write_closed,
            write_canceled: self.write_canceled || o.write_canceled,
        }
    }

    pub fn intersection(&self, o: Ready) -> (r: Ready)
        ensures
            r == intersection(*self, o),
    {
        Ready {
            readable: self.readable && o.readable,
            read_closed: self.read_closed && o.read_closed,
            read_canceled: self.read_canceled && o.read_canceled,
            writable: self.writable && o.writable,
            write_closed: self.write_closed && o.write_closed,
            write_canceled: self.write_canceled && o.write_canceled,
        }
    }

    pub fn difference(&self, o: Ready) -> (r: Ready)
        ensures
            r == difference(*self, o),
    {
        Ready {
            readable: self.readable && !o.readable,
            read_closed: self.read_closed && !o.read_closed,
            read_canceled: self.read_canceled && !o.read_canceled,
            writable: self.writable && !o.writable,
            write_closed: self.write_closed && !o.write_closed,
            write_canceled: self.write_canceled && !o.write_canceled,
        }
    }

    /// Only the cancel flags of `self`.
    pub fn canceled_part(&self) -> (r: Ready)
        ensures
            r == (Ready {
                readable: false,
                read_closed: false,
                read_canceled: self.read_canceled,
                writable: false,
                write_closed: false,
                write_canceled: self.write_canceled,
            }),
    {
        Ready {
            readable: false,
            read_closed: false,
            read_canceled: self.read_canceled,
            writable: false,
            write_closed: false,
            write_canceled: self.write_canceled,
        }
    }

    /// The cancel flags for direction `d`.
    pub fn canceled(d: Direction) -> (r: Ready)
        ensures
            r == cancel_bits(d),
    {
        Ready {
            readable: false,
            read_closed: false,
            read_canceled: !matches!(d, Direction::Write),
            writable: false,
            write_closed: false,
            write_canceled: !matches!(d, Direction::Read),
        }
    }
}

impl Direction {
    /// The flags that concern an operation waiting in this direction.
    pub fn mask(&self) -> (r: Ready)
        ensures
            r == mask_spec(*self),
    {
        let read = !matches!(self, Direction::Write);
        let write = !matches!(self, Direction::Read);
        Ready {
            readable: read,
            read_closed: read,
            read_canceled: read,
            writable: write,
            write_closed: write,
            write_canceled: write,
        }
    }
}

} // verus!
