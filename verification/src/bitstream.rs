//! Conversion of H.264 bitstreams from the MP4 length-prefixed layout to
//! the Annex B start-code layout the decoder expects. Sequence and picture
//! parameter sets, which MP4 keeps in the container header rather than in
//! the bitstream, are inserted in front of IDR pictures that arrive without
//! them.

use vstd::prelude::*;

verus! {

/// Network abstraction layer unit type of an H.264 packet, from the five
/// low bits of its header byte.
#[derive(Clone, Copy, Debug, PartialEq, Eq, Structural)]
pub enum NalType {
    Unspecified,
    Slice,
    Dpa,
    Dpb,
    Dpc,
    IdrSlice,
    Sei,
    Sps,
    Pps,
    Aud,
    EndSequence,
    EndStream,
    FillerData,
    SpsExt,
    Prefix,
    SubSps,
    Dps,
    Reserved17,
    Reserved18,
    AuxiliarySlice,
    ExtenSlice,
    DepthExtenSlice,
    Reserved22,
    Reserved23,
    Unspecified24,
    Unspecified25,
    Unspecified26,
    Unspecified27,
    Unspecified28,
    Unspecified29,
    Unspecified30,
    Unspecified31,
}

/// The unit type encoded by the five low bits of a header byte.
pub open spec fn spec_nal_type(value: u8) -> NalType {
    let v = value & 0x1f;
    if v == 0 {
        NalType::Unspecified
    } else if v == 1 {
        NalType::Slice
    } else if v == 2 {
        NalType::Dpa
    } else if v == 3 {
        NalType::Dpb
    } else if v == 4 {
        NalType::Dpc
    } else if v == 5 {
        NalType::IdrSlice
    } else if v == 6 {
        NalType::Sei
    } else if v == 7 {
        NalType::Sps
    } else if v == 8 {
        NalType::Pps
    } else if v == 9 {
        NalType::Aud
    } else if v == 10 {
        NalType::EndSequence
    } else if v == 11 {
        NalType::EndStream
    } else if v == 12 {
        NalType::FillerData
    } else if v == 13 {
        NalType::SpsExt
    } else if v == 14 {
        NalType::Prefix
    } else if v == 15 {
        NalType::SubSps
    } else if v == 16 {
        NalType::Dps
    } else if v == 17 {
        NalType::Reserved17
    } else if v == 18 {
        NalType::Reserved18
    } else if v == 19 {
        NalType::AuxiliarySlice
    } else if v == 20 {
        NalType::ExtenSlice
    } else if v == 21 {
        NalType::DepthExtenSlice
    } else if v == 22 {
        NalType::Reserved22
    } else if v == 23 {
        NalType::Reserved23
    } else if v == 24 {
        NalType::Unspecified24
    } else if v == 25 {
        NalType::Unspecified25
    } else if v == 26 {
        NalType::Unspecified26
    } else if v == 27 {
        NalType::Unspecified27
    } else if v == 28 {
        NalType::Unspecified28
    } else if v == 29 {
        NalType::Unspecified29
    } else if v == 30 {
        NalType::Unspecified30
    } else {
        NalType::Unspecified31
    }
}

impl NalType {
    /// Reads the unit type from a header byte, masking the five low bits.
    pub fn from_header_byte(value: u8) -> (r: NalType)
        ensures
            r == spec_nal_type(value),
    {
        let v = value & 0x1f;
        proof {
            assert(v < 32) by (bit_vector)
                requires
                    v == value & 0x1f,
            ;
        }
        if v == 0 {
            NalType::Unspecified
        } else if v == 1 {
            NalType::Slice
        } else if v == 2 {
            NalType::Dpa
        } else if v == 3 {
            NalType::Dpb
        } else if v == 4 {
            NalType::Dpc
        } else if v == 5 {
            NalType::IdrSlice
        } else if v == 6 {
            NalType::Sei
        } else if v == 7 {
            NalType::Sps
        } else if v == 8 {
            NalType::Pps
        } else if v == 9 {
            NalType::Aud
        } else if v == 10 {
            NalType::EndSequence
        } else if v == 11 {
            NalType::EndStream
        } else if v == 12 {
            NalType::FillerData
        } else if v == 13 {
            NalType::SpsExt
        } else if v == 14 {
            NalType::Prefix
        } else if v == 15 {
            NalType::SubSps
        } else if v == 16 {
            NalType::Dps
        } else if v == 17 {
            NalType::Reserved17
        } else if v == 18 {
            NalType::Reserved18
        } else if v == 19 {
            NalType::AuxiliarySlice
        } else if v == 20 {
            NalType::ExtenSlice
        } else if v == 21 {
            NalType::DepthExtenSlice
        } else if v == 22 {
            NalType::Reserved22
        } else if v == 23 {
            NalType::Reserved23
        } else if v == 24 {
            NalType::Unspecified24
        } else if v == 25 {
            NalType::Unspecified25
        } else if v == 26 {
            NalType::Unspecified26
        } else if v == 27 {
            NalType::Unspecified27
        } else if v == 28 {
            NalType::Unspecified28
        } else if v == 29 {
            NalType::Unspecified29
        } else if v == 30 {
            NalType::Unspecified30
        } else {
            NalType::Unspecified31
        }
    }
}

/// The big-endian value of `n` bytes at `pos`.
pub open spec fn spec_be_value(stream: Seq<u8>, pos: int, n: int) -> int
    decreases n,
{
    if n <= 0 {
        0
    } else {
        spec_be_value(stream, pos, n - 1) * 256 + stream[pos + n - 1]
    }
}

/// One length-prefixed unit located in a stream: its type and the range of
/// its payload bytes, header byte included.
#[derive(Clone, Copy, Debug, PartialEq, Eq, Structural)]
pub struct NalUnit {
    pub nal_type: NalType,
    /// First payload byte (the header byte).
    pub start: usize,
    /// One past the last payload byte.
    pub end: usize,
}

/// Whether a unit can be read at `pos`: the length prefix fits, is not
/// zero, and the payload it announces fits too.
pub open spec fn spec_unit_readable(stream: Seq<u8>, pos: int, ls: int) -> bool {
    &&& pos + ls <= stream.len()
    &&& spec_be_value(stream, pos, ls) > 0
    &&& pos + ls + spec_be_value(stream, pos, ls) <= stream.len()
}

impl NalUnit {
    /// Reads one unit at `pos` of an MP4 length-prefixed stream, returning
    /// it with the position of the next unit. A truncated prefix, a zero
    /// length or a truncated payload yields nothing.
    pub fn from_stream(stream: &Vec<u8>, pos: usize, length_size: u8) -> (r: Option<
        (NalUnit, usize),
    >)
        requires
            1 <= length_size <= 4,
            pos <= stream@.len(),
        ensures
            r is Some <==> spec_unit_readable(stream@, pos as int, length_size as int),
            r is Some ==> {
                let (unit, next) = r->0;
                &&& unit.start == pos + length_size
                &&& unit.end == pos + length_size + spec_be_value(
                    stream@,
                    pos as int,
                    length_size as int,
                )
                &&& unit.end <= stream@.len()
                &&& unit.start < unit.end
                &&& unit.nal_type == spec_nal_type(stream@[unit.start as int])
                &&& next == unit.end
                &&& next > pos
            },
    {
        let n = stream.len();
        let ls = length_size as usize;
        if n - pos < ls {
            proof {
                lemma_be_value_bound(stream@, pos as int, length_size as int);
            }
            return None;
        }
        let mut nal_size: u64 = 0;
        let mut i: usize = 0;
        while i < ls
            invariant
                ls <= 4,
                pos + ls <= n,
                n == stream@.len(),
                i <= ls,
                nal_size == spec_be_value(stream@, pos as int, i as int),
                nal_size < 0x1_0000_0000,
            decreases ls - i,
        {
            proof {
                lemma_be_value_bound(stream@, pos as int, i as int);
                lemma_be_value_bound(stream@, pos as int, i + 1 as int);
            }
            nal_size = nal_size * 256 + (stream[pos + i] as u64);
            i += 1;
        }
        if nal_size == 0 {
            return None;
        }
        let remaining = (n - pos - ls) as u64;
        if nal_size > remaining {
            return None;
        }
        let start = pos + ls;
        let end = start + (nal_size as usize);
        let nal_type = NalType::from_header_byte(stream[start]);
        Some((NalUnit { nal_type, start, end }, end))
    }
}

/// A big-endian value of `n` bytes is below 2^(8n).
proof fn lemma_be_value_bound(stream: Seq<u8>, pos: int, n: int)
    requires
        0 <= n <= 4,
    ensures
        0 <= spec_be_value(stream, pos, n) < if n == 0 {
            1int
        } else if n == 1 {
            0x100int
        } else if n == 2 {
            0x1_0000int
        } else if n == 3 {
            0x100_0000int
        } else {
            0x1_0000_0000int
        },
    decreases n,
{
    if n > 0 {
        lemma_be_value_bound(stream, pos, n - 1);
    }
}

/// The Annex B start code put in front of every emitted unit.
pub open spec fn spec_start_code() -> Seq<u8> {
    seq![0u8, 0u8, 1u8]
}

/// Parameter sets as emitted into the stream: each behind a start code, in
/// order.
pub open spec fn spec_param_sets(sets: Seq<Seq<u8>>) -> Seq<u8>
    decreases sets.len(),
{
    if sets.len() == 0 {
        Seq::empty()
    } else {
        spec_param_sets(sets.drop_last()) + spec_start_code() + sets.last()
    }
}

/// The converter's insertion state: whether the next IDR picture starts a
/// new coded video sequence, and which parameter sets the current sequence
/// has already carried.
#[derive(Clone, Copy, Debug, PartialEq, Eq, Structural)]
pub struct BitstreamState {
    pub new_idr: bool,
    pub sps_seen: bool,
    pub pps_seen: bool,
}

/// What one parsed unit emits, and the state after it. The unit's payload
/// always follows a start code; an IDR picture that opens a new sequence is
/// preceded by the parameter sets the sequence has not carried yet.
pub open spec fn spec_unit_emission(
    s: BitstreamState,
    sps: Seq<Seq<u8>>,
    pps: Seq<Seq<u8>>,
    t: NalType,
    payload: Seq<u8>,
) -> (Seq<u8>, BitstreamState) {
    let s1 = if t == NalType::Sps {
        BitstreamState { new_idr: s.new_idr, sps_seen: true, pps_seen: s.pps_seen }
    } else if t == NalType::Pps {
        BitstreamState { new_idr: s.new_idr, sps_seen: s.sps_seen, pps_seen: true }
    } else if t == NalType::IdrSlice && !s.new_idr && payload.len() >= 2 && payload[1] & 0x80
        != 0 {
        BitstreamState { new_idr: true, sps_seen: s.sps_seen, pps_seen: s.pps_seen }
    } else {
        s
    };
    let inserted = if t == NalType::IdrSlice && s1.new_idr && !s1.sps_seen && !s1.pps_seen {
        spec_param_sets(sps) + spec_param_sets(pps)
    } else if t == NalType::IdrSlice && s1.new_idr && s1.sps_seen && !s1.pps_seen {
        spec_param_sets(pps)
    } else {
        Seq::empty()
    };
    let s2 = if t == NalType::IdrSlice && s1.new_idr && !s1.sps_seen && !s1.pps_seen {
        BitstreamState { new_idr: false, sps_seen: s1.sps_seen, pps_seen: s1.pps_seen }
    } else {
        s1
    };
    let s3 = if !s2.new_idr && t == NalType::Slice {
        BitstreamState { new_idr: true, sps_seen: false, pps_seen: false }
    } else {
        s2
    };
    (inserted + spec_start_code() + payload, s3)
}

/// The bytes a whole packet converts to from `pos` on, with the state after
/// it. Conversion stops at the packet's end or at a malformed unit.
pub open spec fn spec_convert_stream(
    s: BitstreamState,
    sps: Seq<Seq<u8>>,
    pps: Seq<Seq<u8>>,
    stream: Seq<u8>,
    pos: int,
    ls: int,
) -> (Seq<u8>, BitstreamState)
    decreases stream.len() - pos,
        when 1 <= ls
{
    if pos < 0 || pos >= stream.len() || !spec_unit_readable(stream, pos, ls) {
        (Seq::empty(), s)
    } else {
        let size = spec_be_value(stream, pos, ls);
        let payload = stream.subrange(pos + ls, pos + ls + size);
        let t = spec_nal_type(stream[pos + ls]);
        let step = spec_unit_emission(s, sps, pps, t, payload);
        let rest = spec_convert_stream(step.1, sps, pps, stream, pos + ls + size, ls);
        (step.0 + rest.0, rest.1)
    }
}

/// Converter from the MP4 length-prefixed layout to Annex B for one track,
/// carrying the track's parameter sets and the per-sequence insertion state.
pub struct Mp4BitstreamConverter {
    /// Bytes of each unit's length prefix, one to four.
    pub length_size: u8,
    /// The track's sequence parameter sets, from the container header.
    pub sps: Vec<Vec<u8>>,
    /// The track's picture parameter sets, from the container header.
    pub pps: Vec<Vec<u8>>,
    pub new_idr: bool,
    pub sps_seen: bool,
    pub pps_seen: bool,
}

impl Mp4BitstreamConverter {
    /// The converter's insertion state.
    pub open spec fn spec_state(self) -> BitstreamState {
        BitstreamState { new_idr: self.new_idr, sps_seen: self.sps_seen, pps_seen: self.pps_seen }
    }

    /// The parameter-set views.
    pub open spec fn spec_sps(self) -> Seq<Seq<u8>> {
        self.sps@.map_values(|v: Vec<u8>| v@)
    }

    /// The parameter-set views.
    pub open spec fn spec_pps(self) -> Seq<Seq<u8>> {
        self.pps@.map_values(|v: Vec<u8>| v@)
    }

    /// A converter for one track, from the values of its AVC decoder
    /// configuration: the length-prefix size and the parameter sets stored
    /// in the container header.
    pub fn for_mp4_track(length_size: u8, sps: Vec<Vec<u8>>, pps: Vec<Vec<u8>>) -> (r: Self)
        requires
            1 <= length_size <= 4,
        ensures
            r.length_size == length_size,
            r.sps@ == sps@,
            r.pps@ == pps@,
            r.spec_state() == (BitstreamState { new_idr: true, sps_seen: false, pps_seen: false }),
    {
        Mp4BitstreamConverter {
            length_size,
            sps,
            pps,
            new_idr: true,
            sps_seen: false,
            pps_seen: false,
        }
    }

    /// Appends each parameter set, behind a start code, to the output.
    fn emit_param_sets(sets: &Vec<Vec<u8>>, out: &mut Vec<u8>)
        ensures
            final(out)@ == old(out)@ + spec_param_sets(sets@.map_values(|v: Vec<u8>| v@)),
    {
        let ghost base = out@;
        let ghost views = sets@.map_values(|v: Vec<u8>| v@);
        let n = sets.len();
        let mut i: usize = 0;
        while i < n
            invariant
                n == sets@.len(),
                views == sets@.map_values(|v: Vec<u8>| v@),
                i <= n,
                out@ == base + spec_param_sets(views.subrange(0, i as int)),
            decreases n - i,
        {
            out.push(0u8);
            out.push(0u8);
            out.push(1u8);
            let set = &sets[i];
            let set_len = set.len();
            let mut j: usize = 0;
            while j < set_len
                invariant
                    i < sets@.len(),
                    set == sets@[i as int],
                    set_len == set@.len(),
                    j <= set_len,
                    out@ == base + spec_param_sets(views.subrange(0, i as int)) + spec_start_code()
                        + set@.subrange(0, j as int),
                decreases set_len - j,
            {
                let b = set[j];
                out.push(b);
                proof {
                    assert(set@.subrange(0, j as int).push(b) =~= set@.subrange(0, j + 1 as int));
                    assert(out@ =~= base + spec_param_sets(views.subrange(0, i as int))
                        + spec_start_code() + set@.subrange(0, j + 1 as int));
                }
                j += 1;
            }
            proof {
                let upto = views.subrange(0, i + 1 as int);
                assert(upto.drop_last() =~= views.subrange(0, i as int));
                assert(upto.last() == views[i as int]);
                assert(views[i as int] == sets@[i as int]@);
                assert(set@.subrange(0, set_len as int) =~= set@);
                assert(spec_param_sets(upto) == spec_param_sets(views.subrange(0, i as int))
                    + spec_start_code() + set@);
                assert(out@ =~= base + spec_param_sets(upto));
            }
            i += 1;
        }
        proof {
            assert(views.subrange(0, n as int) =~= views);
        }
    }

    /// Converts one packet from the MP4 length-prefixed layout to Annex B,
    /// replacing the output's contents with the converted bytes and
    /// advancing the insertion state across the packet's units.
    pub fn convert_packet(&mut self, packet: &Vec<u8>, out: &mut Vec<u8>)
        requires
            1 <= old(self).length_size <= 4,
        ensures
            final(self).length_size == old(self).length_size,
            final(self).sps@ == old(self).sps@,
            final(self).pps@ == old(self).pps@,
            ({
                let full = spec_convert_stream(
                    old(self).spec_state(),
                    old(self).spec_sps(),
                    old(self).spec_pps(),
                    packet@,
                    0,
                    old(self).length_size as int,
                );
                final(out)@ == full.0 && final(self).spec_state() == full.1
            }),
    {
        out.clear();
        let ghost sps0 = self.spec_sps();
        let ghost pps0 = self.spec_pps();
        let ghost ls = self.length_size as int;
        let n = packet.len();
        let mut pos: usize = 0;
        while pos < n
            invariant
                n == packet@.len(),
                pos <= n,
                1 <= self.length_size <= 4,
                self.length_size == old(self).length_size,
                self.sps@ == old(self).sps@,
                self.pps@ == old(self).pps@,
                sps0 == self.spec_sps(),
                pps0 == self.spec_pps(),
                ls == self.length_size as int,
                ({
                    let full = spec_convert_stream(
                        old(self).spec_state(),
                        sps0,
                        pps0,
                        packet@,
                        0,
                        ls,
                    );
                    let rest = spec_convert_stream(
                        self.spec_state(),
                        sps0,
                        pps0,
                        packet@,
                        pos as int,
                        ls,
                    );
                    full.0 == out@ + rest.0 && full.1 == rest.1
                }),
            decreases n - pos,
        {
            let parsed = NalUnit::from_stream(packet, pos, self.length_size);
            match parsed {
                None => {
                    pos = n;
                },
                Some((unit, next)) => {
                    let ghost s_before = self.spec_state();
                    let ghost payload = packet@.subrange(unit.start as int, unit.end as int);
                    let ghost step = spec_unit_emission(
                        s_before,
                        sps0,
                        pps0,
                        unit.nal_type,
                        payload,
                    );
                    let ghost out_before = out@;
                    match unit.nal_type {
                        NalType::Sps => {
                            self.sps_seen = true;
                        },
                        NalType::Pps => {
                            self.pps_seen = true;
                        },
                        NalType::IdrSlice => {
                            // A further IDR picture whose first macroblock
                            // starts a new slice group opens a new sequence.
                            if !self.new_idr && unit.end - unit.start >= 2 {
                                let flag = packet[unit.start + 1];
                                if flag & 0x80 != 0 {
                                    self.new_idr = true;
                                }
                            }
                            if self.new_idr && !self.sps_seen && !self.pps_seen {
                                self.new_idr = false;
                                Self::emit_param_sets(&self.sps, out);
                                Self::emit_param_sets(&self.pps, out);
                            } else if self.new_idr && self.sps_seen && !self.pps_seen {
                                Self::emit_param_sets(&self.pps, out);
                            }
                        },
                        _ => {},
                    }
                    out.push(0u8);
                    out.push(0u8);
                    out.push(1u8);
                    let mut k: usize = unit.start;
                    let ghost out_mid = out@;
                    while k < unit.end
                        invariant
                            unit.start <= k <= unit.end,
                            unit.end <= packet@.len(),
                            out@ == out_mid + packet@.subrange(unit.start as int, k as int),
                        decreases unit.end - k,
                    {
                        let b = packet[k];
                        out.push(b);
                        proof {
                            assert(packet@.subrange(unit.start as int, k as int).push(b)
                                =~= packet@.subrange(unit.start as int, k + 1 as int));
                            assert(out@ =~= out_mid + packet@.subrange(
                                unit.start as int,
                                k + 1 as int,
                            ));
                        }
                        k += 1;
                    }
                    if !self.new_idr {
                        match unit.nal_type {
                            NalType::Slice => {
                                self.new_idr = true;
                                self.sps_seen = false;
                                self.pps_seen = false;
                            },
                            _ => {},
                        }
                    }
                    proof {
                        assert(out@ =~= out_before + step.0);
                        assert(self.spec_state() == step.1);
                        let rest_before = spec_convert_stream(
                            s_before,
                            sps0,
                            pps0,
                            packet@,
                            pos as int,
                            ls,
                        );
                        let rest_after = spec_convert_stream(
                            self.spec_state(),
                            sps0,
                            pps0,
                            packet@,
                            next as int,
                            ls,
                        );
                        assert(rest_before.0 =~= step.0 + rest_after.0);
                        assert(out_before + (step.0 + rest_after.0) =~= (out_before + step.0)
                            + rest_after.0);
                    }
                    pos = next;
                },
            }
        }
    }
}

} // verus!

