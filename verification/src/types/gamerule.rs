//! Game rules: the named settings of a world, singly and as the list that
//! packets carry.

use vstd::prelude::*;
use crate::reader::ByteReader;
use crate::error::{CodecError, UnionKind};
use crate::types::Float32;
use crate::varint::{
    ivar_bytes, lemma_ivar_round_trip, lemma_ivar_strict, lemma_uvar_round_trip, lemma_uvar_strict,
    lemma_zigzag, parse_ivar, parse_uvar, Parsed, read_ivar, read_uvar, uvar_bytes, Width,
    write_ivar, write_uvar,
};
use crate::wire::{
    bool_bytes, lemma_bool_round_trip, lemma_bool_strict, lemma_string_round_trip,
    lemma_string_strict, max_prefixed_len, parse_bool, parse_string, read_bool, read_string,
    string_bytes, string_fits, write_bool, write_string,
};

verus! {

/// The value of a game rule: a tagged union over a boolean, a signed 32-bit
/// integer and a single-precision number. The tag travels first, as an
/// unsigned varint: one for a boolean, two for an integer, three for a
/// number. The integer travels as a zig-zag varint.
#[derive(Debug, Clone, Copy, PartialEq, Eq)]
pub enum GameRuleValue {
    Bool(bool),
    Int(i32),
    Float(Float32),
}

impl GameRuleValue {
    /// The tag that stands for the kind of the value on the wire.
    pub open spec fn tag(self) -> nat {
        match self {
            GameRuleValue::Bool(_) => 1,
            GameRuleValue::Int(_) => 2,
            GameRuleValue::Float(_) => 3,
        }
    }

    /// The bytes of what follows the tag.
    pub open spec fn payload_bytes(self) -> Seq<u8> {
        match self {
            GameRuleValue::Bool(v) => bool_bytes(v),
            GameRuleValue::Int(v) => ivar_bytes(v as int),
            GameRuleValue::Float(v) => v.wire_bytes(),
        }
    }

    /// The bytes of the value: the tag, then what the tag announces.
    pub open spec fn wire_bytes(self) -> Seq<u8> {
        uvar_bytes(self.tag()) + self.payload_bytes()
    }

    /// Reads what follows the tag `tag` off the front of `b`. A tag that
    /// stands for no kind is an unknown variant of the union.
    pub open spec fn parse_payload(tag: nat, b: Seq<u8>, strict: bool) -> Parsed<GameRuleValue> {
        if tag == 1 {
            match parse_bool(b, strict) {
                Err(e) => Err(e),
                Ok((v, rest)) => Ok((GameRuleValue::Bool(v), rest)),
            }
        } else if tag == 2 {
            match parse_ivar(b, Width::W32, strict) {
                Err(e) => Err(e),
                Ok((v, rest)) => Ok((GameRuleValue::Int(v as i32), rest)),
            }
        } else if tag == 3 {
            match Float32::parse(b, strict) {
                Err(e) => Err(e),
                Ok((v, rest)) => Ok((GameRuleValue::Float(v), rest)),
            }
        } else {
            Err(CodecError::UnknownVariant { union: UnionKind::GameRuleValue, tag: tag as u64 })
        }
    }

    /// Reads the value off the front of `b`.
    #[verifier::opaque]
    pub open spec fn parse(b: Seq<u8>, strict: bool) -> Parsed<GameRuleValue> {
        match parse_uvar(b, Width::W32, strict) {
            Err(e) => Err(e),
            Ok((tag, rest)) => GameRuleValue::parse_payload(tag, rest, strict),
        }
    }

    /// Reading the bytes of a value gives the value back and leaves what
    /// followed, in strict mode too.
    pub proof fn lemma_round_trip(self, rest: Seq<u8>, strict: bool)
        ensures
            GameRuleValue::parse(self.wire_bytes() + rest, strict) == Ok::<
                (GameRuleValue, Seq<u8>),
                CodecError,
            >((self, rest)),
    {
        reveal(GameRuleValue::parse);
        let r1 = self.payload_bytes() + rest;
        lemma_uvar_round_trip(self.tag(), Width::W32, r1, strict);
        match self {
            GameRuleValue::Bool(v) => {
                lemma_bool_round_trip(v, rest, strict);
            },
            GameRuleValue::Int(v) => {
                lemma_zigzag(v as int, 0);
                lemma_ivar_round_trip(v as int, Width::W32, rest, strict);
            },
            GameRuleValue::Float(v) => {
                v.lemma_round_trip(rest, strict);
            },
        }
        assert(self.wire_bytes() + rest =~= uvar_bytes(self.tag()) + r1);
    }

    /// Whatever reads as a value in strict mode is the bytes of that value,
    /// followed by the bytes left over; the lenient reader agrees.
    pub proof fn lemma_strict(b: Seq<u8>)
        requires
            GameRuleValue::parse(b, true) is Ok,
        ensures
            GameRuleValue::parse(b, false) == GameRuleValue::parse(b, true),
            b == GameRuleValue::parse(b, true).unwrap().0.wire_bytes() + GameRuleValue::parse(
                b,
                true,
            ).unwrap().1,
    {
        reveal(GameRuleValue::parse);
        lemma_uvar_strict(b, Width::W32);
        let (tag, b1) = parse_uvar(b, Width::W32, true).unwrap();
        if tag == 1 {
            lemma_bool_strict(b1);
        } else if tag == 2 {
            lemma_ivar_strict(b1, Width::W32);
            lemma_zigzag(parse_ivar(b1, Width::W32, true).unwrap().0, 0);
        } else {
            Float32::lemma_strict(b1);
        }
        let (v, rest) = GameRuleValue::parse(b, true).unwrap();
        assert(b =~= uvar_bytes(tag) + (v.payload_bytes() + rest));
        assert(b =~= v.wire_bytes() + rest);
    }

    /// Appends the value to `stream`.
    pub fn proto_serialize(&self, stream: &mut Vec<u8>)
        ensures
            final(stream)@ == old(stream)@ + self.wire_bytes(),
    {
        match self {
            GameRuleValue::Bool(v) => {
                write_uvar(stream, 1);
                write_bool(stream, *v);
            },
            GameRuleValue::Int(v) => {
                write_uvar(stream, 2);
                write_ivar(stream, *v as i64);
            },
            GameRuleValue::Float(v) => {
                write_uvar(stream, 3);
                v.proto_serialize(stream);
            },
        }
        assert(stream@ =~= old(stream)@ + self.wire_bytes());
    }

    /// Reads a value from `stream`.
    pub fn proto_deserialize(stream: &mut ByteReader) -> (res: Result<GameRuleValue, CodecError>)
        ensures
            match GameRuleValue::parse(old(stream).remaining(), false) {
                Ok((v, rest)) => res is Ok && res.unwrap() == v && final(stream).remaining()
                    == rest,
                Err(e) => res == Err::<GameRuleValue, CodecError>(e),
            },
    {
        proof {
            reveal(GameRuleValue::parse);
        }
        let tag: u64 = read_uvar(stream, Width::W32)?;
        match tag {
            1 => Ok(GameRuleValue::Bool(read_bool(stream)?)),
            2 => Ok(GameRuleValue::Int(read_ivar(stream, Width::W32)? as i32)),
            3 => Ok(GameRuleValue::Float(Float32::proto_deserialize(stream)?)),
            _ => Err(CodecError::UnknownVariant { union: UnionKind::GameRuleValue, tag }),
        }
    }
}

/// A game rule: a named setting of the world.
#[derive(Debug, Clone, PartialEq, Eq)]
pub struct GameRule {
    /// The name of the rule.
    pub name: String,
    /// Whether players may change the rule.
    pub editable: bool,
    /// What the rule is set to.
    pub value: GameRuleValue,
}

/// The content of a [`GameRule`], as mathematical values.
pub struct GameRuleView {
    pub name: Seq<char>,
    pub editable: bool,
    pub value: GameRuleValue,
}

impl View for GameRule {
    type V = GameRuleView;

    open spec fn view(&self) -> GameRuleView {
        GameRuleView {
            name: self.name@,
            editable: self.editable,
            value: self.value,
        }
    }
}

impl GameRuleView {
    /// Whether every length in the record fits its length prefix, so that
    /// the record can be written.
    pub open spec fn fits(self) -> bool {
        string_fits(self.name)
    }

    /// The bytes of the record: those of its fields, in order.
    pub open spec fn wire_bytes(self) -> Seq<u8> {
        string_bytes(self.name)
            + bool_bytes(self.editable)
            + self.value.wire_bytes()
    }

    /// Reads the record off the front of `b`, field by field. The first
    /// field that fails gives the error.
    #[verifier::opaque]
    pub open spec fn parse(b: Seq<u8>, strict: bool) -> Parsed<GameRuleView> {
        match parse_string(b, strict) {
            Err(e) => Err(e),
            Ok((name, b1)) => match parse_bool(b1, strict) {
                Err(e) => Err(e),
                Ok((editable, b2)) => match GameRuleValue::parse(b2, strict) {
                    Err(e) => Err(e),
                    Ok((value, b3)) => Ok((GameRuleView { name, editable, value }, b3)),
                },
            },
        }
    }

    /// Reading the bytes of a record that fits gives the record back and
    /// leaves what followed, in strict mode too.
    pub proof fn lemma_round_trip(self, rest: Seq<u8>, strict: bool)
        requires
            self.fits(),
        ensures
            GameRuleView::parse(self.wire_bytes() + rest, strict) == Ok::<
                (GameRuleView, Seq<u8>),
                CodecError,
            >((self, rest)),
    {
        reveal(GameRuleView::parse);
        let r3 = rest;
        let r2 = self.value.wire_bytes() + r3;
        let r1 = bool_bytes(self.editable) + r2;
        let r0 = string_bytes(self.name) + r1;
        lemma_string_round_trip(self.name, r1, strict);
        lemma_bool_round_trip(self.editable, r2, strict);
        self.value.lemma_round_trip(r3, strict);
        assert(self.wire_bytes() + rest =~= r0);
    }

    /// Whatever reads as a record in strict mode is the bytes of that record,
    /// followed by the bytes left over; the lenient reader agrees.
    pub proof fn lemma_strict(b: Seq<u8>)
        requires
            GameRuleView::parse(b, true) is Ok,
        ensures
            GameRuleView::parse(b, false) == GameRuleView::parse(b, true),
            ({
                let (v, rest) = GameRuleView::parse(b, true).unwrap();
                v.fits() && b == v.wire_bytes() + rest
            }),
    {
        reveal(GameRuleView::parse);
        let strict = true;
        lemma_string_strict(b);
        let b1 = parse_string(b, strict).unwrap().1;
        lemma_bool_strict(b1);
        let b2 = parse_bool(b1, strict).unwrap().1;
        GameRuleValue::lemma_strict(b2);
        let b3 = GameRuleValue::parse(b2, strict).unwrap().1;
        assert(b =~= GameRuleView::parse(b, true).unwrap().0.wire_bytes() + b3);
    }
}

impl GameRule {
    /// Whether every length in the record fits its length prefix.
    pub fn fits_wire(&self) -> (ok: bool)
        ensures
            ok == self@.fits(),
    {
        self.name.as_str().as_bytes().len() <= 0xffff_ffff
    }

    /// Appends the record to `stream`. A record that does not fit is refused
    /// as out of range, and nothing is appended.
    pub fn proto_serialize(&self, stream: &mut Vec<u8>) -> (res: Result<(), CodecError>)
        ensures
            self@.fits() ==> res is Ok && final(stream)@ == old(stream)@ + self@.wire_bytes(),
            !self@.fits() ==> res == Err::<(), CodecError>(CodecError::OutOfRange) && final(stream)@
                == old(stream)@,
    {
        if !self.fits_wire() {
            return Err(CodecError::OutOfRange);
        }
        write_string(stream, self.name.as_str())?;
        write_bool(stream, self.editable);
        self.value.proto_serialize(stream);
        assert(stream@ =~= old(stream)@ + self@.wire_bytes());
        Ok(())
    }

    /// Reads a record from `stream`, field by field. What is read fits, and
    /// so can be written again.
    pub fn proto_deserialize(stream: &mut ByteReader) -> (res: Result<GameRule, CodecError>)
        ensures
            match GameRuleView::parse(old(stream).remaining(), false) {
                Ok((v, rest)) => res is Ok
                    && res.unwrap()@ == v
                    && v.fits()
                    && final(stream).remaining() == rest,
                Err(e) => res == Err::<GameRule, CodecError>(e),
            },
    {
        proof {
            reveal(GameRuleView::parse);
        }
        let name: String = read_string(stream)?;
        let editable: bool = read_bool(stream)?;
        let value: GameRuleValue = GameRuleValue::proto_deserialize(stream)?;
        Ok(GameRule { name, editable, value })
    }
}

/// The contents of a list of game rules, as mathematical values.
pub open spec fn rules_view(rules: Seq<GameRule>) -> Seq<GameRuleView> {
    rules.map_values(|rule: GameRule| rule@)
}

/// Whether a list of game rules can be written: its length fits the count
/// that precedes it, and every rule fits its length prefixes.
pub open spec fn rules_fit(rules: Seq<GameRuleView>) -> bool {
    &&& rules.len() <= max_prefixed_len()
    &&& forall|i: int| 0 <= i < rules.len() ==> (#[trigger] rules[i]).fits()
}

/// The bytes of the rules of a list, one after the other.
pub open spec fn entries_bytes(rules: Seq<GameRuleView>) -> Seq<u8>
    decreases rules.len(),
{
    if rules.len() == 0 {
        Seq::empty()
    } else {
        rules[0].wire_bytes() + entries_bytes(rules.skip(1))
    }
}

/// The bytes of a list of game rules: the number of rules as an unsigned
/// varint, then the rules.
pub open spec fn rules_bytes(rules: Seq<GameRuleView>) -> Seq<u8> {
    uvar_bytes(rules.len()) + entries_bytes(rules)
}

/// Reads `count` game rules off the front of `b`. The first rule that fails
/// gives the error.
pub open spec fn parse_entries(b: Seq<u8>, count: nat, strict: bool) -> Parsed<Seq<GameRuleView>>
    decreases count,
{
    if count == 0 {
        Ok((Seq::empty(), b))
    } else {
        match GameRuleView::parse(b, strict) {
            Err(e) => Err(e),
            Ok((rule, b1)) => prepend(seq![rule], parse_entries(b1, (count - 1) as nat, strict)),
        }
    }
}

/// The result `tail` with the rules `head` put in front of its rules.
pub open spec fn prepend(head: Seq<GameRuleView>, tail: Parsed<Seq<GameRuleView>>) -> Parsed<
    Seq<GameRuleView>,
> {
    match tail {
        Err(e) => Err(e),
        Ok((rules, rest)) => Ok((head + rules, rest)),
    }
}

/// Reads a list of game rules off the front of `b`: the count, then as many
/// rules.
#[verifier::opaque]
pub open spec fn parse_rules(b: Seq<u8>, strict: bool) -> Parsed<Seq<GameRuleView>> {
    match parse_uvar(b, Width::W32, strict) {
        Err(e) => Err(e),
        Ok((count, rest)) => parse_entries(rest, count, strict),
    }
}

/// The bytes of a list with one more rule at its end are the bytes of the
/// list, then those of the rule.
pub proof fn lemma_entries_bytes_push(rules: Seq<GameRuleView>, rule: GameRuleView)
    ensures
        entries_bytes(rules.push(rule)) == entries_bytes(rules) + rule.wire_bytes(),
    decreases rules.len(),
{
    let longer = rules.push(rule);
    if rules.len() == 0 {
        assert(longer.skip(1) =~= Seq::<GameRuleView>::empty());
        assert(entries_bytes(longer.skip(1)) =~= Seq::<u8>::empty());
        assert(entries_bytes(rules) =~= Seq::<u8>::empty());
        assert(entries_bytes(longer) =~= rule.wire_bytes() + Seq::<u8>::empty());
        assert(entries_bytes(longer) =~= entries_bytes(rules) + rule.wire_bytes());
    } else {
        assert(longer.skip(1) =~= rules.skip(1).push(rule));
        lemma_entries_bytes_push(rules.skip(1), rule);
        assert(entries_bytes(longer) =~= entries_bytes(rules) + rule.wire_bytes());
    }
}

/// Reading the rules of a list that can be written gives the rules back and
/// leaves what followed, in strict mode too.
pub proof fn lemma_entries_round_trip(rules: Seq<GameRuleView>, rest: Seq<u8>, strict: bool)
    requires
        forall|i: int| 0 <= i < rules.len() ==> (#[trigger] rules[i]).fits(),
    ensures
        parse_entries(entries_bytes(rules) + rest, rules.len(), strict) == Ok::<
            (Seq<GameRuleView>, Seq<u8>),
            CodecError,
        >((rules, rest)),
    decreases rules.len(),
{
    if rules.len() == 0 {
        assert(entries_bytes(rules) + rest =~= rest);
        assert(rules =~= Seq::<GameRuleView>::empty());
    } else {
        let tail = rules.skip(1);
        let r1 = entries_bytes(tail) + rest;
        assert(rules[0].fits());
        assert forall|i: int| 0 <= i < tail.len() implies (#[trigger] tail[i]).fits() by {
            assert(tail[i] == rules[i + 1]);
            assert(rules[i + 1].fits());
        }
        rules[0].lemma_round_trip(r1, strict);
        lemma_entries_round_trip(tail, rest, strict);
        assert(entries_bytes(rules) + rest =~= rules[0].wire_bytes() + r1);
        assert(seq![rules[0]] + tail =~= rules);
    }
}

/// Whatever reads as `count` rules in strict mode is the bytes of those
/// rules, followed by the bytes left over; there are `count` of them, each
/// fits, and the lenient reader agrees.
pub proof fn lemma_entries_strict(b: Seq<u8>, count: nat)
    requires
        parse_entries(b, count, true) is Ok,
    ensures
        parse_entries(b, count, false) == parse_entries(b, count, true),
        parse_entries(b, count, true).unwrap().0.len() == count,
        forall|i: int|
            0 <= i < count ==> (#[trigger] parse_entries(b, count, true).unwrap().0[i]).fits(),
        b == entries_bytes(parse_entries(b, count, true).unwrap().0) + parse_entries(
            b,
            count,
            true,
        ).unwrap().1,
    decreases count,
{
    if count == 0 {
        assert(b =~= entries_bytes(Seq::<GameRuleView>::empty()) + b);
    } else {
        GameRuleView::lemma_strict(b);
        let (rule, b1) = GameRuleView::parse(b, true).unwrap();
        lemma_entries_strict(b1, (count - 1) as nat);
        let (tail, rest) = parse_entries(b1, (count - 1) as nat, true).unwrap();
        let rules = seq![rule] + tail;
        assert(rules.skip(1) =~= tail);
        assert(rules[0] == rule);
        assert forall|i: int| 0 <= i < count implies (#[trigger] rules[i]).fits() by {
            if i > 0 {
                assert(rules[i] == tail[i - 1]);
                assert(tail[i - 1].fits());
            }
        }
        assert(b =~= entries_bytes(rules) + rest);
    }
}

/// Reading the bytes of a list of game rules that can be written gives the
/// list back and leaves what followed, in strict mode too.
pub proof fn lemma_rules_round_trip(rules: Seq<GameRuleView>, rest: Seq<u8>, strict: bool)
    requires
        rules_fit(rules),
    ensures
        parse_rules(rules_bytes(rules) + rest, strict) == Ok::<
            (Seq<GameRuleView>, Seq<u8>),
            CodecError,
        >((rules, rest)),
{
    reveal(parse_rules);
    let r1 = entries_bytes(rules) + rest;
    lemma_uvar_round_trip(rules.len(), Width::W32, r1, strict);
    lemma_entries_round_trip(rules, rest, strict);
    assert(rules_bytes(rules) + rest =~= uvar_bytes(rules.len()) + r1);
}

/// Whatever reads as a list of game rules in strict mode is the bytes of
/// that list, followed by the bytes left over; the list can be written, and
/// the lenient reader agrees.
pub proof fn lemma_rules_strict(b: Seq<u8>)
    requires
        parse_rules(b, true) is Ok,
    ensures
        parse_rules(b, false) == parse_rules(b, true),
        rules_fit(parse_rules(b, true).unwrap().0),
        b == rules_bytes(parse_rules(b, true).unwrap().0) + parse_rules(b, true).unwrap().1,
{
    reveal(parse_rules);
    lemma_uvar_strict(b, Width::W32);
    let (count, b1) = parse_uvar(b, Width::W32, true).unwrap();
    lemma_entries_strict(b1, count);
    let (rules, rest) = parse_entries(b1, count, true).unwrap();
    assert(b =~= rules_bytes(rules) + rest);
}

/// Whether a list of game rules can be written.
pub fn rules_fit_wire(rules: &Vec<GameRule>) -> (ok: bool)
    ensures
        ok == rules_fit(rules_view(rules@)),
{
    if rules.len() > 0xffff_ffff {
        return false;
    }
    let mut i: usize = 0;
    while i < rules.len()
        invariant
            i <= rules@.len(),
            forall|k: int| 0 <= k < i ==> (#[trigger] rules_view(rules@)[k]).fits(),
        decreases rules@.len() - i,
    {
        if !rules[i].fits_wire() {
            assert(!rules_view(rules@)[i as int].fits());
            return false;
        }
        i = i + 1;
    }
    true
}

/// Appends a list of game rules to `stream`. A list that cannot be written
/// is refused as out of range, and nothing is appended.
pub fn write_rules(stream: &mut Vec<u8>, rules: &Vec<GameRule>) -> (res: Result<(), CodecError>)
    ensures
        rules_fit(rules_view(rules@)) ==> res is Ok && final(stream)@ == old(stream)@
            + rules_bytes(rules_view(rules@)),
        !rules_fit(rules_view(rules@)) ==> res == Err::<(), CodecError>(CodecError::OutOfRange)
            && final(stream)@ == old(stream)@,
{
    if !rules_fit_wire(rules) {
        return Err(CodecError::OutOfRange);
    }
    let ghost view = rules_view(rules@);
    write_uvar(stream, rules.len() as u64);
    let ghost start = stream@;
    let mut i: usize = 0;
    assert(entries_bytes(view.take(0)) =~= Seq::<u8>::empty());
    assert(start + entries_bytes(view.take(0)) =~= start);
    while i < rules.len()
        invariant
            i <= rules@.len(),
            view == rules_view(rules@),
            rules_fit(view),
            stream@ == start + entries_bytes(view.take(i as int)),
        decreases rules@.len() - i,
    {
        let ghost before = stream@;
        assert(view[i as int].fits());
        rules[i].proto_serialize(stream)?;
        proof {
            lemma_entries_bytes_push(view.take(i as int), view[i as int]);
            assert(view.take(i + 1) =~= view.take(i as int).push(view[i as int]));
            assert(stream@ =~= start + entries_bytes(view.take(i + 1)));
        }
        i = i + 1;
    }
    assert(view.take(i as int) =~= view);
    assert(stream@ =~= old(stream)@ + rules_bytes(view));
    Ok(())
}

/// Reads a list of game rules from `stream`. Rules are read one by one, so
/// nothing is allocated for a count the input cannot back.
pub fn read_rules(stream: &mut ByteReader) -> (res: Result<Vec<GameRule>, CodecError>)
    ensures
        match parse_rules(old(stream).remaining(), false) {
            Ok((rules, rest)) => res is Ok && rules_view(res.unwrap()@) == rules && rules_fit(rules)
                && final(stream).remaining() == rest,
            Err(e) => res == Err::<Vec<GameRule>, CodecError>(e),
        },
{
    proof {
        reveal(parse_rules);
    }
    let count: u64 = read_uvar(stream, Width::W32)?;
    let ghost b1 = stream.remaining();
    let mut rules: Vec<GameRule> = Vec::new();
    let mut i: u64 = 0;
    assert(rules_view(rules@) =~= Seq::<GameRuleView>::empty());
    assert(prepend(rules_view(rules@), parse_entries(b1, count as nat, false)) == parse_entries(
        b1,
        count as nat,
        false,
    )) by {
        match parse_entries(b1, count as nat, false) {
            Ok((rs, rest)) => {
                assert(Seq::<GameRuleView>::empty() + rs =~= rs);
            },
            Err(e) => {},
        }
    }
    while i < count
        invariant
            i <= count,
            rules@.len() == i,
            count <= max_prefixed_len(),
            forall|k: int| 0 <= k < i ==> (#[trigger] rules_view(rules@)[k]).fits(),
            parse_rules(old(stream).remaining(), false) == parse_entries(b1, count as nat, false),
            parse_entries(b1, count as nat, false) == prepend(
                rules_view(rules@),
                parse_entries(stream.remaining(), (count - i) as nat, false),
            ),
        decreases count - i,
    {
        let ghost here = stream.remaining();
        let ghost sofar = rules_view(rules@);
        let rule: GameRule = GameRule::proto_deserialize(stream)?;
        rules.push(rule);
        proof {
            let next = parse_entries(stream.remaining(), (count - i - 1) as nat, false);
            assert(rules_view(rules@) =~= sofar.push(rule@));
            match next {
                Ok((rs, rest)) => {
                    assert(sofar + (seq![rule@] + rs) =~= sofar.push(rule@) + rs);
                },
                Err(e) => {},
            }
        }
        i = i + 1;
    }
    assert(rules_view(rules@) + Seq::<GameRuleView>::empty() =~= rules_view(rules@));
    Ok(rules)
}

} // verus!
