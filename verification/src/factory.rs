//! The adapter registry: a fixed mapping from model identifier to backend
//! adapter.

use vstd::prelude::*;
use crate::cf_flux::CFFluxProcessor;
use crate::cf_sdxl::CFSdxlProcessor;
use crate::ta_flux::TAFluxProcessor;

verus! {

/// One of the known backend adapters, as a closed set of variants.
#[derive(Debug, Clone)]
pub enum Adapter {
    CfFlux(CFFluxProcessor),
    CfSdxl(CFSdxlProcessor),
    TaFlux(TAFluxProcessor),
}

/// Resolves model identifiers against the fixed table of known backends.
pub struct ProcessorFactory;

impl ProcessorFactory {
    /// Exact string match over the fixed identifier set; every string
    /// outside it resolves to nothing.
    pub fn create(model_id: &str) -> (r: Option<Adapter>)
        ensures
            model_id@ == "cf_flux"@ ==> (r matches Some(a) && a is CfFlux),
            model_id@ == "cf_sdxl"@ ==> (r matches Some(a) && a is CfSdxl),
            model_id@ == "ta_flux"@ ==> (r matches Some(a) && a is TaFlux),
            r is None <==> model_id@ != "cf_flux"@ && model_id@ != "cf_sdxl"@ && model_id@
                != "ta_flux"@,
    {
        proof {
            reveal_strlit("cf_flux");
            reveal_strlit("cf_sdxl");
            reveal_strlit("ta_flux");
            assert("cf_flux"@[3] == 'f' && "cf_sdxl"@[3] == 's' && "ta_flux"@[0] == 't'
                && "cf_flux"@[0] == 'c');
            assert("cf_flux"@ != "cf_sdxl"@);
            assert("cf_flux"@ != "ta_flux"@);
            assert("cf_sdxl"@ != "ta_flux"@);
        }
        let b = model_id.as_bytes();
        if crate::ser::bytes_eq(b, "cf_flux".as_bytes()) {
            proof {
                vstd::utf8::encode_utf8_decode_utf8(model_id@);
                vstd::utf8::encode_utf8_decode_utf8("cf_flux"@);
            }
            Some(Adapter::CfFlux(CFFluxProcessor::new()))
        } else if crate::ser::bytes_eq(b, "cf_sdxl".as_bytes()) {
            proof {
                vstd::utf8::encode_utf8_decode_utf8(model_id@);
                vstd::utf8::encode_utf8_decode_utf8("cf_sdxl"@);
            }
            Some(Adapter::CfSdxl(CFSdxlProcessor::new()))
        } else if crate::ser::bytes_eq(b, "ta_flux".as_bytes()) {
            proof {
                vstd::utf8::encode_utf8_decode_utf8(model_id@);
                vstd::utf8::encode_utf8_decode_utf8("ta_flux"@);
            }
            Some(Adapter::TaFlux(TAFluxProcessor::new()))
        } else {
            None
        }
    }
}

} // verus!
