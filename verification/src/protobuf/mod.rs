pub mod float_bits;
pub mod messages;
pub mod process_settings;
pub mod change_password;
pub mod monitoring_over_conditions;
pub mod md;
pub mod stream;
pub mod chunk_buffer;
pub mod device_info;
pub mod output;
pub mod process_request;

use vstd::prelude::*;

verus! {

#[verifier::external_type_specification]
#[verifier::external_body]
pub struct ExEncodeError(prost::EncodeError);

/// Why a request could not be taken in.
#[derive(Debug)]
pub enum ProtobufProcessInputError<IE> {
    Input(IE),
    Decode(prost::DecodeError),
}

impl<IE> ProtobufProcessInputError<IE> {
    pub fn from_input_error(e: IE) -> (r: Self)
        ensures
            r == ProtobufProcessInputError::<IE>::Input(e),
    {
        ProtobufProcessInputError::Input(e)
    }

    pub fn from_decode_error(e: prost::DecodeError) -> (r: Self)
        ensures
            r == ProtobufProcessInputError::<IE>::Decode(e),
    {
        ProtobufProcessInputError::Decode(e)
    }
}

/// How the handling of a request ended.
#[derive(Debug)]
pub enum ProtobufProcessError<IE, OE> {
    /// Nothing went wrong.
    Done,
    Input(IE),
    Output(OE),
    Decode(prost::DecodeError),
    Encode(prost::EncodeError),
}

impl<IE, OE> Default for ProtobufProcessError<IE, OE> {
    fn default() -> (r: Self)
        ensures
            r == ProtobufProcessError::<IE, OE>::Done,
    {
        ProtobufProcessError::Done
    }
}

impl<IE, OE> ProtobufProcessError<IE, OE> {
    pub fn from_output_error(e: OE) -> (r: Self)
        ensures
            r == ProtobufProcessError::<IE, OE>::Output(e),
    {
        ProtobufProcessError::Output(e)
    }

    pub fn from_encode_error(e: prost::EncodeError) -> (r: Self)
        ensures
            r == ProtobufProcessError::<IE, OE>::Encode(e),
    {
        ProtobufProcessError::Encode(e)
    }

    /// The error of a request that could not be taken in.
    pub fn from_input(e: ProtobufProcessInputError<IE>) -> (r: Self)
        ensures
            e matches ProtobufProcessInputError::Input(x) ==> r == ProtobufProcessError::<
                IE,
                OE,
            >::Input(x),
            e matches ProtobufProcessInputError::Decode(x) ==> r == ProtobufProcessError::<
                IE,
                OE,
            >::Decode(x),
    {
        match e {
            ProtobufProcessInputError::Input(e) => ProtobufProcessError::Input(e),
            ProtobufProcessInputError::Decode(e) => ProtobufProcessError::Decode(e),
        }
    }
}

} // verus!
