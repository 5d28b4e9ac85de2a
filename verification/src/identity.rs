//! What the device says of itself in Basic Information.
use vstd::prelude::*;

use crate::decimal;
use crate::decimal::decimal_digits;
use crate::domain::{InverterInfo, InverterInfoView};

verus! {

pub const DEVICE_NAME: &'static str = "PV Inverter";

pub const VENDOR_NAME: &'static str = "pv-matter (unofficial)";

/// The product name until the model is known.
pub const PLACEHOLDER_PRODUCT: &'static str = "PV Inverter";

/// The part of Basic Information that the inverter's identity decides.
#[derive(Debug, Clone, PartialEq, Eq)]
pub struct BasicInfo {
    pub product_name: String,
    pub serial_no: String,
}

pub struct BasicInfoView {
    pub product_name: Seq<char>,
    pub serial_no: Seq<char>,
}

impl DeepView for BasicInfo {
    type V = BasicInfoView;

    open spec fn deep_view(&self) -> BasicInfoView {
        BasicInfoView { product_name: self.product_name@, serial_no: self.serial_no@ }
    }
}

/// The product is the inverter's model, the serial number the inverter's own;
/// without them there is a placeholder and an empty text.
pub open spec fn described(info: Option<InverterInfoView>) -> BasicInfoView {
    BasicInfoView {
        product_name: match info {
            Some(info) => match info.device_model {
                Some(model) => model,
                None => PLACEHOLDER_PRODUCT@,
            },
            None => PLACEHOLDER_PRODUCT@,
        },
        serial_no: match info {
            Some(info) => match info.serial {
                Some(serial) => decimal_digits(serial as nat),
                None => ""@,
            },
            None => ""@,
        },
    }
}

/// Basic Information of an inverter whose identity may be known.
pub fn basic_info(info: &Option<InverterInfo>) -> (res: BasicInfo)
    ensures
        res.deep_view() == described(info.deep_view()),
{
    match info {
        Some(info) => {
            let product_name: String = match &info.device_model {
                Some(model) => model.as_str().to_owned(),
                None => PLACEHOLDER_PRODUCT.to_owned(),
            };
            let serial_no: String = match info.serial {
                Some(serial) => decimal::decimal_text(serial),
                None => "".to_owned(),
            };
            BasicInfo { product_name, serial_no }
        },
        None => BasicInfo {
            product_name: PLACEHOLDER_PRODUCT.to_owned(),
            serial_no: "".to_owned(),
        },
    }
}

} // verus!
