//! Format probing, and the demuxer for the custom length-prefixed
//! container: a fixed four-byte magic, then frames of a two-byte big-endian
//! length followed by that many packet bytes. Reading stops at the end of
//! the stream — a truncated trailing frame ends the stream, it is no error.

use crate::music_track::extension_supported;
use crate::music_track::extension_supported_spec;
use crate::NError;
use vstd::prelude::*;

verus! {

/// The container's magic: the four bytes `DCA1`.
pub open spec fn dca_magic_spec() -> Seq<u8> {
    seq![0x44u8, 0x43u8, 0x41u8, 0x31u8]
}

/// A frame's payload length: its two length bytes, big-endian.
pub open spec fn frame_len_spec(b0: u8, b1: u8) -> int {
    (b0 as int) * 256 + (b1 as int)
}

/// The frames of the stream from `pos` on: each a length-prefixed slice,
/// up to the first position where no whole frame is left.
pub open spec fn dca_frames_spec(data: Seq<u8>, pos: int) -> Seq<Seq<u8>>
    decreases data.len() - pos,
    when 0 <= pos <= data.len()
{
    if pos + 2 > data.len() {
        Seq::empty()
    } else {
        let l = frame_len_spec(data[pos], data[pos + 1]);
        if pos + 2 + l > data.len() {
            Seq::empty()
        } else {
            seq![data.subrange(pos + 2, pos + 2 + l)] + dca_frames_spec(data, pos + 2 + l)
        }
    }
}

/// The byte sequences of a list of packets.
pub open spec fn frame_views_spec(frames: Seq<Vec<u8>>) -> Seq<Seq<u8>> {
    frames.map_values(|p: Vec<u8>| p@)
}

/// Appending a packet appends its bytes to the model.
proof fn lemma_frame_views_push(frames: Seq<Vec<u8>>, p: Vec<u8>)
    ensures
        frame_views_spec(frames.push(p)) == frame_views_spec(frames).push(p@),
{
    assert(frame_views_spec(frames.push(p)) =~= frame_views_spec(frames).push(p@));
}

/// Whether the stream opens with the container's magic.
pub fn has_dca_magic(data: &Vec<u8>) -> (r: bool)
    ensures
        r == (data@.len() >= 4 && data@.subrange(0, 4) == dca_magic_spec()),
{
    if data.len() >= 4 {
        let ok = data[0] == 0x44 && data[1] == 0x43 && data[2] == 0x41 && data[3] == 0x31;
        proof {
            assert(data@.subrange(0, 4)[0] == data@[0]);
            assert(data@.subrange(0, 4)[1] == data@[1]);
            assert(data@.subrange(0, 4)[2] == data@[2]);
            assert(data@.subrange(0, 4)[3] == data@[3]);
            if ok {
                assert(data@.subrange(0, 4) =~= dca_magic_spec());
            }
        }
        ok
    } else {
        false
    }
}

/// Reads the frame that starts at `pos`: its payload and the position right
/// after it. Nothing is left when fewer than two bytes remain for the
/// length, or the length promises more payload than the stream still holds.
pub fn next_frame(data: &Vec<u8>, pos: usize) -> (r: Option<(Vec<u8>, usize)>)
    requires
        pos <= data@.len(),
    ensures
        r matches Some(fr) ==> ({
            &&& pos + 2 <= data@.len()
            &&& fr.0@.len() == frame_len_spec(data@[pos as int], data@[pos as int + 1])
            &&& fr.1 == pos + 2 + fr.0@.len()
            &&& fr.1 <= data@.len()
            &&& pos < fr.1
            &&& fr.0@ == data@.subrange(pos as int + 2, fr.1 as int)
        }),
        r is None ==> (pos + 2 > data@.len() || pos + 2 + frame_len_spec(
            data@[pos as int],
            data@[pos as int + 1],
        ) > data@.len()),
{
    if data.len() >= 2 && pos <= data.len() - 2 {
        let l: usize = (data[pos] as usize) * 256 + (data[pos + 1] as usize);
        if l <= data.len() - pos - 2 {
            let dlen: usize = data.len();
            let mut packet: Vec<u8> = Vec::new();
            let mut k: usize = 0;
            while k < l
                invariant
                    k <= l,
                    pos + 2 + l <= dlen,
                    dlen == data@.len(),
                    packet@.len() == k,
                    packet@ =~= data@.subrange(pos as int + 2, pos as int + 2 + k as int),
                decreases l - k,
            {
                packet.push(data[pos + 2 + k]);
                proof {
                    assert(packet@ =~= data@.subrange(pos as int + 2, pos as int + 2 + k + 1));
                }
                k = k + 1;
            }
            Some((packet, pos + 2 + l))
        } else {
            None
        }
    } else {
        None
    }
}

/// Demuxes the whole stream from `start` on into its frames, stopping at
/// the end of the stream.
pub fn parse_dca_frames(data: &Vec<u8>, start: usize) -> (r: Vec<Vec<u8>>)
    requires
        start <= data@.len(),
    ensures
        frame_views_spec(r@) == dca_frames_spec(data@, start as int),
{
    let ghost total = dca_frames_spec(data@, start as int);
    let mut frames: Vec<Vec<u8>> = Vec::new();
    let mut pos: usize = start;
    let mut done: bool = false;
    proof {
        assert(frame_views_spec(frames@) + total =~= total);
    }
    while !done
        invariant
            pos <= data@.len(),
            !done ==> frame_views_spec(frames@) + dca_frames_spec(data@, pos as int) == total,
            done ==> frame_views_spec(frames@) == total,
        decreases data@.len() - pos + (if done {
            0int
        } else {
            1int
        }),
    {
        let ghost prev_frames = frames@;
        let ghost prev_pos = pos as int;
        match next_frame(data, pos) {
            Some((packet, next)) => {
                let ghost pv = packet@;
                frames.push(packet);
                pos = next;
                proof {
                    lemma_frame_views_push(prev_frames, frames@.last());
                    assert(dca_frames_spec(data@, prev_pos) == seq![pv] + dca_frames_spec(
                        data@,
                        pos as int,
                    ));
                    assert(frame_views_spec(frames@) + dca_frames_spec(data@, pos as int)
                        =~= frame_views_spec(prev_frames) + dca_frames_spec(data@, prev_pos));
                }
            },
            None => {
                proof {
                    assert(dca_frames_spec(data@, pos as int) =~= Seq::<Seq<u8>>::empty());
                    assert(frame_views_spec(frames@) + dca_frames_spec(data@, pos as int)
                        =~= frame_views_spec(frames@));
                }
                done = true;
            },
        }
    }
    frames
}

/// The container family a probe settles on.
#[derive(Copy, Clone, Debug, PartialEq, Eq, Structural)]
pub enum ProbeFormat {
    /// The custom length-prefixed container.
    Dca,
    /// A container or codec bundled with the decoding library.
    Standard,
}

/// What probing decides, extension hint first, content sniff second: the
/// custom container by its own extension, then any registered standard
/// format, then the custom container again by its magic; everything else is
/// an unsupported format.
pub open spec fn probe_format_spec(ext: Seq<char>, head: Seq<u8>) -> Result<ProbeFormat, NError> {
    if ext == "dca"@ {
        Ok(ProbeFormat::Dca)
    } else if extension_supported_spec(ext) {
        Ok(ProbeFormat::Standard)
    } else if head.len() >= 4 && head.subrange(0, 4) == dca_magic_spec() {
        Ok(ProbeFormat::Dca)
    } else {
        Err(NError::UnsupportedFormat)
    }
}

/// Decides which demuxer takes the stream: the extension hint is consulted
/// first, the stream's opening bytes second.
pub fn probe_format(ext: &String, head: &Vec<u8>) -> (r: Result<ProbeFormat, NError>)
    ensures
        r == probe_format_spec(ext@, head@),
{
    if *ext == String::from_str("dca") {
        Ok(ProbeFormat::Dca)
    } else if extension_supported(ext) {
        Ok(ProbeFormat::Standard)
    } else if has_dca_magic(head) {
        Ok(ProbeFormat::Dca)
    } else {
        Err(NError::UnsupportedFormat)
    }
}

} // verus!
