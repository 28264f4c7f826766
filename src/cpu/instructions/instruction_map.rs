//! The dispatch table: a trie keyed by successive opcode bytes, held as an
//! arena of 256-entry tables. Table 0 is the root.
use vstd::prelude::*;
use crate::common::{Byte, Fault};

verus! {

/// The instruction handlers.
#[derive(PartialEq, Eq, Structural, Copy, Clone, Debug)]
pub enum Handler {
    Nop,
    LdBcImm,
    LdBcA,
    IncBc,
    IncB,
}

/// One slot of a dispatch table.
#[derive(PartialEq, Eq, Structural, Copy, Clone, Debug)]
pub enum MapObj {
    /// No handler: decoding fails loudly here.
    NotImplemented,
    /// The opcode path ends in this handler.
    Func(Handler),
    /// The next opcode byte selects in the table with this index.
    SubMap(usize),
}

/// The handler that the opcode path `bytes[i..]` reaches from table `t`.
/// Running out of bytes, a missing table or slot, and an empty slot all
/// decode to `NotImplemented`.
pub open spec fn decode(tables: Seq<Seq<MapObj>>, t: int, bytes: Seq<Byte>, i: int) -> Result<Handler, Fault>
    decreases bytes.len() - i,
{
    if i < 0 || i >= bytes.len() || t < 0 || t >= tables.len() || bytes[i] >= tables[t].len() {
        Err(Fault::NotImplemented)
    } else {
        match tables[t][bytes[i] as int] {
            MapObj::Func(h) => Ok(h),
            MapObj::SubMap(n) => decode(tables, n as int, bytes, i + 1),
            MapObj::NotImplemented => Err(Fault::NotImplemented),
        }
    }
}

/// The dispatch trie.
pub struct InstructionMap {
    tables: Vec<Vec<MapObj>>,
}

impl InstructionMap {
    /// The tables, each as its 256 slots.
    pub closed spec fn tables(&self) -> Seq<Seq<MapObj>> {
        Seq::new(self.tables@.len(), |i: int| self.tables@[i]@)
    }

    /// The base instruction set: opcodes 0x00 to 0x04 have handlers, every
    /// other opcode is not implemented.
    pub fn new() -> (m: InstructionMap)
        ensures
            m.tables().len() == 1,
            m.tables()[0].len() == 256,
            m.tables()[0][0x00] == MapObj::Func(Handler::Nop),
            m.tables()[0][0x01] == MapObj::Func(Handler::LdBcImm),
            m.tables()[0][0x02] == MapObj::Func(Handler::LdBcA),
            m.tables()[0][0x03] == MapObj::Func(Handler::IncBc),
            m.tables()[0][0x04] == MapObj::Func(Handler::IncB),
            forall|k: int| 0x05 <= k < 256 ==> m.tables()[0][k] == MapObj::NotImplemented,
    {
        let mut root: Vec<MapObj> = Vec::new();
        let mut k: usize = 0;
        while k < 256
            invariant
                k <= 256,
                root@.len() == k,
                forall|j: int| 0 <= j < k ==> root@[j] == MapObj::NotImplemented,
            decreases 256 - k,
        {
            root.push(MapObj::NotImplemented);
            k += 1;
        }
        root.set(0x00, MapObj::Func(Handler::Nop));
        root.set(0x01, MapObj::Func(Handler::LdBcImm));
        root.set(0x02, MapObj::Func(Handler::LdBcA));
        root.set(0x03, MapObj::Func(Handler::IncBc));
        root.set(0x04, MapObj::Func(Handler::IncB));
        let mut tables: Vec<Vec<MapObj>> = Vec::new();
        tables.push(root);
        let m = InstructionMap { tables };
        assert(m.tables()[0] == root@);
        m
    }

    /// Adds a table with every slot empty, for a new opcode prefix, and
    /// returns its index.
    pub fn add_table(&mut self) -> (t: usize)
        requires
            old(self).tables().len() < usize::MAX,
        ensures
            t == old(self).tables().len(),
            final(self).tables() == old(self).tables().push(
                Seq::new(256, |k: int| MapObj::NotImplemented),
            ),
    {
        let mut slots: Vec<MapObj> = Vec::new();
        let mut k: usize = 0;
        while k < 256
            invariant
                k <= 256,
                slots@ == Seq::new(k as nat, |j: int| MapObj::NotImplemented),
            decreases 256 - k,
        {
            slots.push(MapObj::NotImplemented);
            k += 1;
            assert(slots@ =~= Seq::new(k as nat, |j: int| MapObj::NotImplemented));
        }
        let t = self.tables.len();
        self.tables.push(slots);
        assert(self.tables() =~= old(self).tables().push(Seq::new(256, |k: int| MapObj::NotImplemented)));
        t
    }

    /// Puts `obj` in slot `opcode` of table `table`.
    pub fn set(&mut self, table: usize, opcode: Byte, obj: MapObj)
        requires
            table < old(self).tables().len(),
            opcode < old(self).tables()[table as int].len(),
        ensures
            final(self).tables() == old(self).tables().update(
                table as int,
                old(self).tables()[table as int].update(opcode as int, obj),
            ),
    {
        let slots = &mut self.tables[table];
        slots.set(opcode as usize, obj);
        assert(self.tables() =~= old(self).tables().update(
            table as int,
            old(self).tables()[table as int].update(opcode as int, obj),
        ));
    }

    /// The handler for the instruction whose bytes are `bytes`.
    pub fn get(&self, bytes: &[Byte; 4]) -> (r: Result<Handler, Fault>)
        ensures
            r == decode(self.tables(), 0, bytes@, 0),
    {
        self.get_submap(0, bytes, 0)
    }

    /// Walks the trie from table `table`, selecting on `bytes[i]`.
    fn get_submap(&self, table: usize, bytes: &[Byte; 4], i: usize) -> (r: Result<Handler, Fault>)
        ensures
            r == decode(self.tables(), table as int, bytes@, i as int),
        decreases 4 - i,
    {
        if i >= 4 || table >= self.tables.len() {
            return Err(Fault::NotImplemented);
        }
        let slots = &self.tables[table];
        let b = bytes[i] as usize;
        if b >= slots.len() {
            return Err(Fault::NotImplemented);
        }
        match slots[b] {
            MapObj::Func(h) => Ok(h),
            MapObj::SubMap(n) => self.get_submap(n, bytes, i + 1),
            MapObj::NotImplemented => Err(Fault::NotImplemented),
        }
    }
}

} // verus!
