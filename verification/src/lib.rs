//! Hardware video encoding and decoding on Intel GPUs through the Video Processing Library (VPL).
//!
//! The crate holds everything that is decided around the library's calls: settings and their
//! parameter blocks, the meaning of statuses, the life of surfaces, the retries, the pairing of
//! outputs with what the caller handed in, and what is listed and reported. The calls themselves are
//! named here as values and made by whoever links the library.
//!
//! A procedure that takes several calls is a value: it names the next call, its `step` takes the
//! reply, and in the end it says what came of it. [`list_adapters`], [`supported_codecs`],
//! [`Encoder::new`], [`Encoder::encode`], [`Encoder::finish`], [`Decoder::new`], [`Decoder::decode`]
//! and [`Decoder::finish`] start such procedures. The workers in [`encode_worker`] and
//! [`decode_worker`] turn synchronised outputs into the notices that handlers get.
//!
//! Input frames are NV12, YUY2 or BGRA; decoded frames are NV12. Codecs are H.264, H.265, VP9 and
//! AV1.
pub mod adapter;
pub mod codec_info;
pub mod config;
pub mod decode;
pub mod decode_worker;
pub mod encode;
pub mod encode_worker;
pub mod error;
pub mod format;
pub mod frame_type;
pub mod gop_opt_flag;
pub mod handler;
pub mod ledger;
pub mod loader;
pub mod param;
pub mod pending;
pub mod sequence;
pub mod sys;
pub mod text;
pub mod vpl;

pub use adapter::list_adapters;
pub use adapter::AdapterInfo;
pub use adapter::AdapterSelector;
pub use adapter::MediaAdapterType;
pub use adapter::PciAddress;
pub use codec_info::supported_codecs;
pub use codec_info::Av1EncodingProfile;
pub use codec_info::CodecInfo;
pub use codec_info::DecodingInfo;
pub use codec_info::EncodingInfo;
pub use codec_info::EncodingProfiles;
pub use codec_info::H264EncodingProfile;
pub use codec_info::HevcEncodingProfile;
pub use codec_info::VideoCodecType;
pub use codec_info::Vp9EncodingProfile;
pub use config::Av1EncoderConfig;
pub use config::Av1Profile;
pub use config::CodecConfig;
pub use config::EncodeOptions;
pub use config::EncoderConfig;
pub use config::EncoderStats;
pub use config::H264EncoderConfig;
pub use config::H264Profile;
pub use config::HevcEncoderConfig;
pub use config::HevcProfile;
pub use config::PictureType;
pub use config::RateControlMode;
pub use config::ReconfigureParams;
pub use config::Vp9EncoderConfig;
pub use config::Vp9Profile;
pub use decode::Decoder;
pub use decode::DecoderCodec;
pub use decode::DecoderConfig;
pub use decode_worker::DecodedFrame;
pub use encode::Encoder;
pub use encode_worker::EncodedFrame;
pub use error::Error;
pub use format::FrameFormat;
pub use handler::DecodeHandler;
pub use handler::EncodeHandler;
pub use handler::FnDecodeHandler;
pub use handler::FnEncodeHandler;
