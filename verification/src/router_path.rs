//! The paths under which the HTTP interface serves the read-model.

use vstd::prelude::*;

verus! {

/// One path per route of the HTTP interface.
#[derive(Clone, Debug, PartialEq, Eq)]
pub struct RouterPath {
    pub generate_signature: String,
    pub verify_authenticity: String,
    pub sign_up: String,
    pub get_owner: String,
    pub verify_signature: String,
    pub create_certificate: String,
    pub qr_code: String,
    pub get_manufacturer: String,
    pub manufacturer_name_exists: String,
    pub get_user: String,
    pub is_user_exist: String,
    pub get_my_items: String,
    pub transfer_ownership: String,
    pub transfer_code: String,
}

impl RouterPath {
    /// Whether every path is the one that the interface is served under.
    pub open spec fn is_standard(&self) -> bool {
        &&& self.generate_signature@ == "/generate_signature"@
        &&& self.verify_authenticity@ == "/verify_authenticity"@
        &&& self.sign_up@ == "/manufacturer_registers"@
        &&& self.get_owner@ == "/get_owner/{address}"@
        &&& self.verify_signature@ == "/verify_signature"@
        &&& self.create_certificate@ == "/create_certificate"@
        &&& self.qr_code@ == "/qr_code"@
        &&& self.get_manufacturer@ == "/api/manufacturer"@
        &&& self.manufacturer_name_exists@ == "/api/manufacturer/exists"@
        &&& self.get_user@ == "/api/user/get"@
        &&& self.is_user_exist@ == "/api/user/exists"@
        &&& self.get_my_items@ == "/api/items/owner"@
        &&& self.transfer_ownership@ == "/api/transfer_ownership"@
        &&& self.transfer_code@ == "/api/get_transfer_code"@
    }

    /// The standard paths.
    pub fn init() -> (paths: RouterPath)
        ensures
            paths.is_standard(),
    {
        RouterPath {
            generate_signature: String::from_str("/generate_signature"),
            verify_authenticity: String::from_str("/verify_authenticity"),
            sign_up: String::from_str("/manufacturer_registers"),
            get_owner: String::from_str("/get_owner/{address}"),
            verify_signature: String::from_str("/verify_signature"),
            create_certificate: String::from_str("/create_certificate"),
            qr_code: String::from_str("/qr_code"),
            get_manufacturer: String::from_str("/api/manufacturer"),
            manufacturer_name_exists: String::from_str("/api/manufacturer/exists"),
            get_user: String::from_str("/api/user/get"),
            is_user_exist: String::from_str("/api/user/exists"),
            get_my_items: String::from_str("/api/items/owner"),
            transfer_ownership: String::from_str("/api/transfer_ownership"),
            transfer_code: String::from_str("/api/get_transfer_code"),
        }
    }
}

} // verus!
