pub mod error;
pub mod framesize;
pub mod imaging;
pub mod yuv;

pub use error::Error;
pub use framesize::CandidateSize;
pub use framesize::FourCC;
pub use framesize::TargetFrameSize;
pub use framesize::choose_framesize;
pub use framesize::confirm_format_honored;
pub use imaging::PixelConverter;
pub use imaging::converter_for_fourcc;
pub use imaging::decoded_results_to_vec;
pub use imaging::guess_image;
pub use imaging::image_decode_error;
pub use imaging::preferred_fourccs;
pub use imaging::scan_image;
pub use imaging::yuv422_to_image;
pub use yuv::yuv422_to_rgb;

use std::collections::VecDeque;

use vstd::prelude::*;

use crate::imaging::converter_for;
use crate::imaging::decode_guessed_raster;
use crate::imaging::frame_decodes;
use crate::imaging::frame_texts;

verus! {

/// The error a drained test queue reports, as a ready-made result value.
pub fn empty_test_error() -> (r: Result<Vec<String>, Error>)
    ensures
        r == Err::<Vec<String>, Error>(Error::ExhaustedInput),
{
    Err(Error::ExhaustedInput)
}

/// Decode one raw frame: select the converter bound to its format,
/// convert it to a still image, scan for symbols, and normalize the
/// report into the texts that parsed. The live capture loop feeds every
/// captured buffer through this, and the fixed-frames queue reuses it
/// per entry.
pub fn decode_frame(fourcc: &FourCC, width: u32, height: u32, buf: &[u8]) -> (r: Result<
    Vec<String>,
    Error,
>)
    ensures
        match converter_for(*fourcc) {
            None => r == Err::<Vec<String>, Error>(Error::UnsupportedFormat),
            Some(conv) => {
                &&& r is Ok <==> frame_decodes(conv, buf@, width, height)
                &&& r matches Ok(v) ==> v@ == frame_texts(conv, buf@, width, height)
                &&& r matches Err(e) ==> e == Error::DecodeFailure
            },
        },
{
    let conv = match converter_for_fourcc(fourcc) {
        Ok(c) => c,
        Err(e) => {
            return Err(e);
        },
    };
    match conv {
        PixelConverter::Yuv422 => {
            let rgb = match yuv422_to_rgb(buf, width, height) {
                Ok(rgb) => rgb,
                Err(e) => {
                    return Err(e);
                },
            };
            Ok(scan_image(rgb, width, height))
        },
        PixelConverter::Codec => {
            let decoded = match decode_guessed_raster(buf) {
                Some(t) => t,
                None => {
                    return Err(Error::DecodeFailure);
                },
            };
            Ok(scan_image(decoded.0, decoded.1, decoded.2))
        },
    }
}

/// The session state: fixed at construction, never changed afterwards.
/// Live capture is driven from outside by feeding each captured buffer
/// to `decode_frame`; the two queue-backed states replay test inputs.
enum State {
    TestImages { input_data: VecDeque<(FourCC, u32, u32, Vec<u8>)> },
    TestResults { results: VecDeque<Result<Vec<String>, Error>> },
}

/// Decode QR- and barcodes from a queue of raw frames or of prepared
/// outcomes, behind the same polling interface that live capture uses.
pub struct QRScanStream {
    state: State,
}

impl QRScanStream {
    /// Whether this session replays raw frames.
    pub closed spec fn is_test_images(&self) -> bool {
        self.state is TestImages
    }

    /// Whether this session replays prepared outcomes.
    pub closed spec fn is_test_results(&self) -> bool {
        self.state is TestResults
    }

    /// The raw frames still queued, front first.
    pub closed spec fn queued_frames(&self) -> Seq<(FourCC, u32, u32, Vec<u8>)> {
        match self.state {
            State::TestImages { input_data } => input_data@,
            State::TestResults { .. } => Seq::empty(),
        }
    }

    /// The prepared outcomes still queued, front first.
    pub closed spec fn queued_results(&self) -> Seq<Result<Vec<String>, Error>> {
        match self.state {
            State::TestResults { results } => results@,
            State::TestImages { .. } => Seq::empty(),
        }
    }

    /// Create a session that replays raw frames, each tagged with its
    /// format and resolution, through the real conversion and decode
    /// path.
    pub fn with_test_images(data: VecDeque<(FourCC, u32, u32, Vec<u8>)>) -> (r: Result<
        QRScanStream,
        Error,
    >)
        ensures
            r is Ok,
            r->Ok_0.is_test_images(),
            r->Ok_0.queued_frames() == data@,
    {
        Ok(QRScanStream { state: State::TestImages { input_data: data } })
    }

    /// Create a session that replays prepared outcomes without any
    /// imaging.
    pub fn with_test_results(data: VecDeque<Result<Vec<String>, Error>>) -> (r: Result<
        QRScanStream,
        Error,
    >)
        ensures
            r is Ok,
            r->Ok_0.is_test_results(),
            r->Ok_0.queued_results() == data@,
    {
        Ok(QRScanStream { state: State::TestResults { results: data } })
    }

    /// Search the next frame for QR- or barcodes.
    ///
    /// A prepared outcome is returned unmodified; a raw frame is popped,
    /// converted by the converter its tag selects, and scanned. A drained
    /// queue reports `ExhaustedInput` and stays drained, so every further
    /// call reports the same.
    pub fn decode_next(&mut self) -> (r: Result<Vec<String>, Error>)
        ensures
            final(self).is_test_images() == old(self).is_test_images(),
            final(self).is_test_results() == old(self).is_test_results(),
            old(self).is_test_results() ==> if old(self).queued_results().len() == 0 {
                &&& r == Err::<Vec<String>, Error>(Error::ExhaustedInput)
                &&& final(self).queued_results() == old(self).queued_results()
            } else {
                &&& r == old(self).queued_results()[0]
                &&& final(self).queued_results() == old(self).queued_results().skip(1)
            },
            old(self).is_test_images() ==> if old(self).queued_frames().len() == 0 {
                &&& r == Err::<Vec<String>, Error>(Error::ExhaustedInput)
                &&& final(self).queued_frames() == old(self).queued_frames()
            } else {
                let frame = old(self).queued_frames()[0];
                &&& final(self).queued_frames() == old(self).queued_frames().skip(1)
                &&& match converter_for(frame.0) {
                    None => r == Err::<Vec<String>, Error>(Error::UnsupportedFormat),
                    Some(conv) => {
                        &&& r is Ok <==> frame_decodes(conv, frame.3@, frame.1, frame.2)
                        &&& r matches Ok(v) ==> v@ == frame_texts(conv, frame.3@, frame.1, frame.2)
                        &&& r matches Err(e) ==> e == Error::DecodeFailure
                    },
                }
            },
    {
        match &mut self.state {
            State::TestResults { results } => {
                proof {
                    if results@.len() > 0 {
                        assert(results@.subrange(1, results@.len() as int) =~= results@.skip(1));
                    }
                }
                match results.pop_front() {
                    Some(i) => i,
                    None => empty_test_error(),
                }
            },
            State::TestImages { input_data } => {
                proof {
                    if input_data@.len() > 0 {
                        assert(input_data@.subrange(1, input_data@.len() as int) =~= input_data@
                            .skip(1));
                    }
                }
                let data = match input_data.pop_front() {
                    Some(d) => d,
                    None => {
                        return empty_test_error();
                    },
                };
                decode_frame(&data.0, data.1, data.2, data.3.as_slice())
            },
        }
    }
}

} // verus!
