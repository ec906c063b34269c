use vstd::prelude::*;

use crate::message::{format_message, message_text};
use crate::seen::{after_check, is_news, SeenCache};
use crate::slots::{slots_view, Slot};

verus! {

/// The districts watched, by feed identifier and name, in scanning order.
pub const MONITORED_DISTRICTS: [(u16, &'static str); 82] = [
    (8, "Visakhapatnam"),
    (49, "Kamrup Metropolitan"),
    (64, "Sonitpur"),
    (74, "Araria"),
    (86, "Muzaffarpur"),
    (108, "Chandigarh"),
    (109, "Raipur"),
    (142, "West Delhi"),
    (145, "East Delhi"),
    (146, "North Delhi"),
    (150, "South West Delhi"),
    (151, "North Goa"),
    (152, "South Goa"),
    (154, "Ahmedabad"),
    (187, "Panchkula"),
    (188, "Gurgaon"),
    (192, "Ambala"),
    (195, "Panipat"),
    (199, "Faridabad"),
    (202, "Rewari"),
    (212, "Sirmaur"),
    (265, "Bangalore Urban"),
    (266, "Mysore"),
    (269, "Dakshina Kannada"),
    (281, "Uttar Kannada"),
    (286, "Udupi"),
    (294, "BBMP"),
    (296, "Thiruvananthapuram"),
    (297, "Kannur"),
    (300, "Pathanamthitta"),
    (301, "Alappuzha"),
    (302, "Malappuram"),
    (303, "Thrissur"),
    (304, "Kottayam"),
    (307, "Ernakulam"),
    (308, "Palakkad"),
    (312, "Bhopal"),
    (313, "Gwalior"),
    (316, "Rewa"),
    (348, "Guna"),
    (362, "Betul"),
    (363, "Pune"),
    (365, "Nagpur"),
    (376, "Satara"),
    (390, "Jalgaon"),
    (391, "Ahmednagar"),
    (392, "Thane"),
    (393, "Raigad"),
    (395, "Mumbai"),
    (397, "Aurangabad"),
    (446, "Khurda"),
    (453, "Sundargarh"),
    (457, "Cuttack"),
    (494, "Patiala"),
    (496, "SAS Nagar"),
    (501, "Bikaner"),
    (502, "Jodhpur"),
    (505, "Jaipur I"),
    (507, "Ajmer"),
    (512, "Alwar"),
    (513, "Sikar"),
    (521, "Chittorgarh"),
    (523, "Bhilwara"),
    (530, "Churu"),
    (571, "Chennai"),
    (581, "Hyderabad"),
    (624, "Prayagraj"),
    (650, "Gautam Buddha Nagar"),
    (651, "Ghaziabad"),
    (664, "Kanpur Nagar"),
    (670, "Lucknow"),
    (676, "Meerut"),
    (679, "Muzaffarnagar"),
    (689, "Shamli"),
    (696, "Varanasi"),
    (697, "Dehradun"),
    (709, "Nainital"),
    (721, "Howrah"),
    (725, "Kolkata"),
    (773, "Jamnagar Corporation"),
    (775, "Rajkot Corporation"),
    (777, "Vadodara Corporation"),
];

/// Decides what one district's scan leads to. No result leaves the cache
/// alone and sends nothing. A result is checked against the cache; when it
/// is news the message to send is returned, and nothing otherwise.
pub fn notification_for(
    seen: &mut SeenCache,
    district_id: u16,
    district_name: &str,
    result: Option<Vec<Slot>>,
    budget: usize,
) -> (r: Option<String>)
    ensures
        match result {
            None => r.is_none() && final(seen)@ == old(seen)@,
            Some(v) => {
                &&& final(seen)@ == after_check(old(seen)@, district_id, slots_view(v@))
                &&& match r {
                    Some(text) => is_news(old(seen)@, district_id, slots_view(v@)) && text@
                        == message_text(district_name@, slots_view(v@), budget as nat),
                    None => !is_news(old(seen)@, district_id, slots_view(v@)),
                }
            },
        },
{
    match result {
        None => None,
        Some(slots) => {
            if seen.is_novel(district_id, &slots) {
                Some(format_message(district_name, &slots, budget))
            } else {
                None
            }
        },
    }
}

} // verus!
