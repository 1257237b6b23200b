//! The device model of the station.

use vstd::prelude::*;
use crate::quantity::Quantity;

verus! {

#[derive(Debug, Clone, Copy, PartialEq, Eq, Hash, Structural)]
pub enum DeviceModelEvseConnectorType {
    CCcs1,
    CCcs2,
    CG105,
    CTesla,
    CType1,
    CType2,
    S3091P16A,
    S3091P32A,
    S3093P16A,
    S3093P32A,
    SBs1361,
    SCee77,
    SType2,
    SType3,
    Other1PhMax16A,
    Other1PhOver16A,
    Other3Ph,
    Pan,
    WInductive,
    WResonant,
    Undetermined,
    Unknown,
}

#[derive(Debug, Clone, Copy, PartialEq, Eq, Hash, Structural)]
pub enum DeviceModelComponentVariableMutability {
    ReadOnly,
    ReadWrite,
    WriteOnly,
}

#[derive(Debug, Clone, Copy, PartialEq, Eq, Hash, Structural)]
pub enum DataType {
    String,
    Decimal,
    Integer,
    DateTime,
    Boolean,
    OptionList,
    SequenceList,
    MemberList,
}

#[derive(Debug, Clone, PartialEq)]
pub struct DeviceModelComponentVariable {
    pub name: String,
    pub value: String,
    pub instance: Option<String>,
    pub unit: Option<String>,
    pub mutability: Option<DeviceModelComponentVariableMutability>,
    pub constant: Option<bool>,
    pub data_type: Option<DataType>,
    pub values_list: Option<String>,
}

#[derive(Debug, Clone, PartialEq)]
pub struct DeviceModelComponent {
    pub name: String,
    pub instance: Option<String>,
    pub evse_id: Option<u32>,
    pub connector_id: Option<u32>,
    pub variables: Vec<DeviceModelComponentVariable>,
}

#[derive(Debug, Clone, PartialEq)]
pub struct DeviceModelEvseConnector {
    pub id: u32,
    pub connector_type: DeviceModelEvseConnectorType,
}

#[derive(Debug, Clone, PartialEq)]
pub struct DeviceModelEvse {
    pub ocpp_id: u32,
    pub iso15118_id: String,
    pub power_kw: Quantity,
    pub supply_phases: u32,
    pub connectors: Vec<DeviceModelEvseConnector>,
}

#[derive(Debug, Clone, PartialEq)]
pub struct DeviceModelResponse {
    pub model: String,
    pub vendor: String,
    pub identity: String,
    pub ocpp_csms_url: String,
    pub security_profile: u8,
    pub basic_auth_password: String,
    pub serial_number: String,
    pub firmware_version: String,
    pub sim_iccid: Option<String>,
    pub sim_imsi: Option<String>,
    pub evses: Vec<DeviceModelEvse>,
    pub components: Vec<DeviceModelComponent>,
}

} // verus!
