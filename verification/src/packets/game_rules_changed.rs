//! The game-rules-changed packet: the server changes rules of the world.

use vstd::prelude::*;
use crate::error::CodecError;
use crate::reader::ByteReader;
use crate::types::gamerule::{
    GameRule, GameRuleView, lemma_rules_round_trip, lemma_rules_strict, parse_rules, read_rules,
    rules_bytes, rules_fit, rules_fit_wire, rules_view, write_rules,
};
use crate::varint::Parsed;

verus! {

/// Tells the client which game rules changed and what they are now.
#[derive(Debug, Clone, PartialEq, Eq)]
pub struct GameRulesChangedPacket {
    /// The rules that changed.
    pub rules: Vec<GameRule>,
}

/// The content of a [`GameRulesChangedPacket`], as mathematical values.
pub struct GameRulesChangedPacketView {
    pub rules: Seq<GameRuleView>,
}

impl View for GameRulesChangedPacket {
    type V = GameRulesChangedPacketView;

    open spec fn view(&self) -> GameRulesChangedPacketView {
        GameRulesChangedPacketView {
            rules: rules_view(self.rules@),
        }
    }
}

impl GameRulesChangedPacketView {
    /// Whether every length in the record fits its length prefix, so that
    /// the record can be written.
    pub open spec fn fits(self) -> bool {
        rules_fit(self.rules)
    }

    /// The bytes of the record: those of its fields, in order.
    pub open spec fn wire_bytes(self) -> Seq<u8> {
        rules_bytes(self.rules)
    }

    /// Reads the record off the front of `b`, field by field. The first
    /// field that fails gives the error.
    #[verifier::opaque]
    pub open spec fn parse(b: Seq<u8>, strict: bool) -> Parsed<GameRulesChangedPacketView> {
        match parse_rules(b, strict) {
            Err(e) => Err(e),
            Ok((rules, b1)) => Ok((GameRulesChangedPacketView { rules }, b1)),
        }
    }

    /// Reading the bytes of a record that fits gives the record back and
    /// leaves what followed, in strict mode too.
    pub proof fn lemma_round_trip(self, rest: Seq<u8>, strict: bool)
        requires
            self.fits(),
        ensures
            GameRulesChangedPacketView::parse(self.wire_bytes() + rest, strict) == Ok::<
                (GameRulesChangedPacketView, Seq<u8>),
                CodecError,
            >((self, rest)),
    {
        reveal(GameRulesChangedPacketView::parse);
        let r1 = rest;
        let r0 = rules_bytes(self.rules) + r1;
        lemma_rules_round_trip(self.rules, r1, strict);
        assert(self.wire_bytes() + rest =~= r0);
    }

    /// Whatever reads as a record in strict mode is the bytes of that record,
    /// followed by the bytes left over; the lenient reader agrees.
    pub proof fn lemma_strict(b: Seq<u8>)
        requires
            GameRulesChangedPacketView::parse(b, true) is Ok,
        ensures
            GameRulesChangedPacketView::parse(b, false)
                == GameRulesChangedPacketView::parse(b, true),
            ({
                let (v, rest) = GameRulesChangedPacketView::parse(b, true).unwrap();
                v.fits() && b == v.wire_bytes() + rest
            }),
    {
        reveal(GameRulesChangedPacketView::parse);
        let strict = true;
        lemma_rules_strict(b);
        let b1 = parse_rules(b, strict).unwrap().1;
        assert(b =~= GameRulesChangedPacketView::parse(b, true).unwrap().0.wire_bytes() + b1);
    }
}

impl GameRulesChangedPacket {
    /// Whether every length in the record fits its length prefix.
    pub fn fits_wire(&self) -> (ok: bool)
        ensures
            ok == self@.fits(),
    {
        rules_fit_wire(&self.rules)
    }

    /// Appends the record to `stream`. A record that does not fit is refused
    /// as out of range, and nothing is appended.
    pub fn proto_serialize(&self, stream: &mut Vec<u8>) -> (res: Result<(), CodecError>)
        ensures
            self@.fits() ==> res is Ok && final(stream)@ == old(stream)@ + self@.wire_bytes(),
            !self@.fits() ==> res == Err::<(), CodecError>(CodecError::OutOfRange) && final(stream)@
                == old(stream)@,
    {
        if !self.fits_wire() {
            return Err(CodecError::OutOfRange);
        }
        write_rules(stream, &self.rules)?;
        assert(stream@ =~= old(stream)@ + self@.wire_bytes());
        Ok(())
    }

    /// Reads a record from `stream`, field by field. What is read fits, and
    /// so can be written again.
    pub fn proto_deserialize(stream: &mut ByteReader) -> (res: Result<
        GameRulesChangedPacket,
        CodecError,
    >)
        ensures
            match GameRulesChangedPacketView::parse(old(stream).remaining(), false) {
                Ok((v, rest)) => res is Ok
                    && res.unwrap()@ == v
                    && v.fits()
                    && final(stream).remaining() == rest,
                Err(e) => res == Err::<GameRulesChangedPacket, CodecError>(e),
            },
    {
        proof {
            reveal(GameRulesChangedPacketView::parse);
        }
        let rules: Vec<GameRule> = read_rules(stream)?;
        Ok(GameRulesChangedPacket { rules })
    }
}

} // verus!
