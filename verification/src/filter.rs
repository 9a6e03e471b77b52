//! Filters for the devices found in a scan.
use vstd::prelude::*;

use crate::error::{Error, ErrorView, fails_with};
use crate::ids::Uuid;
use crate::models::{AdvertisementData, DiscoveredDevice};
use crate::platform::Platform;

verus! {

/// Filter for discovering devices. Only devices that match the filter are found by a scan.
#[derive(Debug)]
pub enum ScanFilter {
    /// Matches every device.
    NoFilter,
    /// Matches if the device advertises the specified service.
    Service(Uuid),
    /// Matches if the device advertises any of the specified services.
    AnyService(Vec<Uuid>),
    /// Matches if the device advertises all of the specified services.
    AllServices(Vec<Uuid>),
    /// Matches if the device advertises the specified manufacturer data.
    ManufacturerData(u16, Vec<u8>),
    /// Matches if the device advertises the specified manufacturer data, checking only the bits
    /// that are 1 in the mask.
    ManufacturerDataMasked(u16, Vec<u8>, Vec<u8>),
}

/// `data` agrees with `value` in every bit that is 1 in `mask`. A bit that `data` does not have
/// agrees with nothing.
pub open spec fn agrees_under_mask(data: Seq<u8>, value: Seq<u8>, mask: Seq<u8>) -> bool {
    forall|i: int|
        #![trigger mask[i]]
        0 <= i < mask.len() && i < value.len() && mask[i] != 0 ==> i < data.len() && data[i]
            & mask[i] == value[i] & mask[i]
}

/// At least one of `uuids` is among `services`.
pub open spec fn advertises_any(services: Seq<Uuid>, uuids: Seq<Uuid>) -> bool {
    exists|uuid: Uuid| #[trigger] uuids.contains(uuid) && services.contains(uuid)
}

/// Every one of `uuids` is among `services`.
pub open spec fn advertises_all(services: Seq<Uuid>, uuids: Seq<Uuid>) -> bool {
    forall|uuid: Uuid| #[trigger] uuids.contains(uuid) ==> services.contains(uuid)
}

/// A device that advertises `adv` matches `filter`.
pub open spec fn matches_filter(adv: AdvertisementData, filter: ScanFilter) -> bool {
    match filter {
        ScanFilter::NoFilter => true,
        ScanFilter::Service(uuid) => adv.services@.contains(uuid),
        ScanFilter::AnyService(uuids) => advertises_any(adv.services@, uuids@),
        ScanFilter::AllServices(uuids) => advertises_all(adv.services@, uuids@),
        ScanFilter::ManufacturerData(key, value) => adv.manufacturer_data matches Some(m)
            && m.company_id == key && m.data@ == value@,
        ScanFilter::ManufacturerDataMasked(key, value, mask) => adv.manufacturer_data matches Some(
            m,
        ) && m.company_id == key && agrees_under_mask(m.data@, value@, mask@),
    }
}

/// The data and the mask of a masked filter have the same length.
pub open spec fn is_valid_filter(filter: ScanFilter) -> bool {
    filter matches ScanFilter::ManufacturerDataMasked(_, data, mask) ==> data@.len() == mask@.len()
}

fn contains_uuid(uuids: &Vec<Uuid>, uuid: Uuid) -> (found: bool)
    ensures
        found == uuids@.contains(uuid),
{
    for i in 0..uuids.len()
        invariant
            forall|j: int| 0 <= j < i ==> uuids@[j] != uuid,
    {
        if uuids[i] == uuid {
            assert(uuids@[i as int] == uuid);
            return true;
        }
    }
    false
}

fn contains_any(services: &Vec<Uuid>, uuids: &Vec<Uuid>) -> (found: bool)
    ensures
        found == advertises_any(services@, uuids@),
{
    for i in 0..uuids.len()
        invariant
            forall|j: int| 0 <= j < i ==> !services@.contains(#[trigger] uuids@[j]),
    {
        if contains_uuid(services, uuids[i]) {
            assert(uuids@.contains(uuids@[i as int]));
            return true;
        }
    }
    assert forall|uuid: Uuid| #[trigger] uuids@.contains(uuid) implies !services@.contains(
        uuid,
    ) by {
        let j = choose|j: int| 0 <= j < uuids@.len() && uuids@[j] == uuid;
        assert(!services@.contains(uuids@[j]));
    }
    false
}

fn contains_all(services: &Vec<Uuid>, uuids: &Vec<Uuid>) -> (found: bool)
    ensures
        found == advertises_all(services@, uuids@),
{
    for i in 0..uuids.len()
        invariant
            forall|j: int| 0 <= j < i ==> services@.contains(#[trigger] uuids@[j]),
    {
        if !contains_uuid(services, uuids[i]) {
            assert(uuids@.contains(uuids@[i as int]));
            return false;
        }
    }
    true
}

fn same_bytes(a: &Vec<u8>, b: &Vec<u8>) -> (same: bool)
    ensures
        same == (a@ == b@),
{
    if a.len() != b.len() {
        return false;
    }
    for i in 0..a.len()
        invariant
            a@.len() == b@.len(),
            forall|j: int| 0 <= j < i ==> a@[j] == b@[j],
    {
        if a[i] != b[i] {
            return false;
        }
    }
    assert(a@ =~= b@);
    true
}

fn agree_under_mask(data: &Vec<u8>, value: &Vec<u8>, mask: &Vec<u8>) -> (agree: bool)
    ensures
        agree == agrees_under_mask(data@, value@, mask@),
{
    for i in 0..mask.len()
        invariant
            forall|j: int|
                #![trigger mask@[j]]
                0 <= j < i && j < value@.len() && mask@[j] != 0 ==> j < data@.len() && data@[j]
                    & mask@[j] == value@[j] & mask@[j],
    {
        if i < value.len() && mask[i] != 0 && (i >= data.len() || data[i] & mask[i] != value[i]
            & mask[i]) {
            assert(mask@[i as int] != 0);
            return false;
        }
    }
    true
}

/// Whether a discovered device matches `filter`.
pub fn filter_device<P: Platform>(discovered: &DiscoveredDevice<P>, filter: &ScanFilter) -> (passes:
    bool)
    ensures
        passes == matches_filter(discovered.adv_data, *filter),
{
    let adv = &discovered.adv_data;
    match filter {
        ScanFilter::NoFilter => true,
        ScanFilter::Service(uuid) => contains_uuid(&adv.services, *uuid),
        ScanFilter::AnyService(uuids) => contains_any(&adv.services, uuids),
        ScanFilter::AllServices(uuids) => contains_all(&adv.services, uuids),
        ScanFilter::ManufacturerData(key, value) => match &adv.manufacturer_data {
            Some(m) => m.company_id == *key && same_bytes(&m.data, value),
            None => false,
        },
        ScanFilter::ManufacturerDataMasked(key, value, mask) => match &adv.manufacturer_data {
            Some(m) => m.company_id == *key && agree_under_mask(&m.data, value, mask),
            None => false,
        },
    }
}

/// Refuses a masked filter of which the data and the mask differ in length.
pub fn check_filter(filter: &ScanFilter) -> (result: Result<(), Error>)
    ensures
        result is Ok <==> is_valid_filter(*filter),
        result is Err ==> fails_with(result, ErrorView::InvalidFilterMask),
{
    if let ScanFilter::ManufacturerDataMasked(_, data, mask) = filter {
        if data.len() != mask.len() {
            return Err(Error::InvalidFilterMask);
        }
    }
    Ok(())
}

/// One service may be asked for by itself, as the only one of which any is wanted, or as the
/// only one of which all are wanted.
pub proof fn law_single_service_filters_agree(
    adv: AdvertisementData,
    uuid: Uuid,
    any: Vec<Uuid>,
    all: Vec<Uuid>,
)
    requires
        any@ == seq![uuid],
        all@ == seq![uuid],
    ensures
        matches_filter(adv, ScanFilter::AnyService(any)) == matches_filter(
            adv,
            ScanFilter::Service(uuid),
        ),
        matches_filter(adv, ScanFilter::AllServices(all)) == matches_filter(
            adv,
            ScanFilter::Service(uuid),
        ),
{
    assert(any@[0] == uuid);
    assert(any@.contains(uuid));
    assert(all@[0] == uuid);
    assert(all@.contains(uuid));
}

/// Of no services, a device advertises all and not any.
pub proof fn law_empty_service_filters(adv: AdvertisementData, none: Vec<Uuid>)
    requires
        none@.len() == 0,
    ensures
        matches_filter(adv, ScanFilter::AllServices(none)),
        !matches_filter(adv, ScanFilter::AnyService(none)),
{
}

/// A device that advertises all of some services advertises any of them, if there is one.
pub proof fn law_all_services_implies_any(adv: AdvertisementData, uuids: Vec<Uuid>)
    requires
        uuids@.len() > 0,
        matches_filter(adv, ScanFilter::AllServices(uuids)),
    ensures
        matches_filter(adv, ScanFilter::AnyService(uuids)),
{
    assert(uuids@.contains(uuids@[0]));
}

/// A device that matches a filter for some services matches if more of them will do, and if
/// fewer of them are needed.
pub proof fn law_service_filters_are_monotone(
    adv: AdvertisementData,
    fewer: Vec<Uuid>,
    more: Vec<Uuid>,
)
    requires
        forall|uuid: Uuid| #[trigger] fewer@.contains(uuid) ==> more@.contains(uuid),
    ensures
        matches_filter(adv, ScanFilter::AnyService(fewer)) ==> matches_filter(
            adv,
            ScanFilter::AnyService(more),
        ),
        matches_filter(adv, ScanFilter::AllServices(more)) ==> matches_filter(
            adv,
            ScanFilter::AllServices(fewer),
        ),
{
}

/// A device that advertises exactly the specified manufacturer data matches under every mask.
pub proof fn law_exact_data_matches_under_any_mask(
    adv: AdvertisementData,
    key: u16,
    value: Vec<u8>,
    mask: Vec<u8>,
)
    requires
        matches_filter(adv, ScanFilter::ManufacturerData(key, value)),
    ensures
        matches_filter(adv, ScanFilter::ManufacturerDataMasked(key, value, mask)),
{
}

/// Under a mask of ones only, data of the specified length matches exactly if it is the
/// specified data.
pub proof fn law_full_mask_is_exact(
    adv: AdvertisementData,
    key: u16,
    value: Vec<u8>,
    mask: Vec<u8>,
)
    requires
        mask@.len() == value@.len(),
        forall|i: int| 0 <= i < mask@.len() ==> mask@[i] == 0xffu8,
        adv.manufacturer_data matches Some(m) && m.data@.len() == value@.len(),
    ensures
        matches_filter(adv, ScanFilter::ManufacturerDataMasked(key, value, mask))
            == matches_filter(adv, ScanFilter::ManufacturerData(key, value)),
{
    let data = adv.manufacturer_data->0.data@;
    if agrees_under_mask(data, value@, mask@) {
        assert forall|i: int| 0 <= i < data.len() implies data[i] == value@[i] by {
            assert(mask@[i] != 0);
            let (d, v) = (data[i], value@[i]);
            assert(d & 0xff == v & 0xff ==> d == v) by (bit_vector);
        }
        assert(data =~= value@);
    }
}

/// Bits that are 0 in the mask do not count: values that agree in the others select the same
/// devices.
pub proof fn law_masked_out_bits_do_not_count(
    adv: AdvertisementData,
    key: u16,
    value: Vec<u8>,
    other: Vec<u8>,
    mask: Vec<u8>,
)
    requires
        value@.len() == other@.len(),
        forall|i: int|
            #![trigger mask@[i]]
            0 <= i < mask@.len() && i < value@.len() ==> value@[i] & mask@[i] == other@[i]
                & mask@[i],
    ensures
        matches_filter(adv, ScanFilter::ManufacturerDataMasked(key, value, mask))
            == matches_filter(adv, ScanFilter::ManufacturerDataMasked(key, other, mask)),
{
}

/// Every device passes if there is no filter.
pub proof fn law_no_filter_takes_every_device<P: Platform>(
    device: DiscoveredDevice<P>,
    filter: ScanFilter,
    passes: bool,
)
    requires
        filter is NoFilter,
        call_ensures(filter_device::<P>, (&device, &filter), passes),
    ensures
        passes,
        matches_filter(device.adv_data, filter),
{
}

/// A filter for one service takes a device exactly if one of the services that it advertises is that
/// one, wherever it stands among them.
pub proof fn law_service_filter_takes_the_service<P: Platform>(
    device: DiscoveredDevice<P>,
    filter: ScanFilter,
    uuid: Uuid,
    passes: bool,
)
    requires
        filter == ScanFilter::Service(uuid),
        call_ensures(filter_device::<P>, (&device, &filter), passes),
    ensures
        passes <==> exists|i: int|
            0 <= i < device.adv_data.services@.len() && #[trigger] device.adv_data.services@[i]
                == uuid,
        passes == matches_filter(device.adv_data, filter),
{
}

/// A filter for any of some services takes a device exactly if some advertised service is some
/// specified one, wherever they stand.
pub proof fn law_any_service_filter_takes_one_of_them<P: Platform>(
    device: DiscoveredDevice<P>,
    filter: ScanFilter,
    uuids: Vec<Uuid>,
    passes: bool,
)
    requires
        filter == ScanFilter::AnyService(uuids),
        call_ensures(filter_device::<P>, (&device, &filter), passes),
    ensures
        passes <==> exists|i: int, j: int|
            0 <= i < device.adv_data.services@.len() && 0 <= j < uuids@.len()
                && #[trigger] device.adv_data.services@[i] == #[trigger] uuids@[j],
        passes == matches_filter(device.adv_data, filter),
{
    let services = device.adv_data.services@;
    if passes {
        let uuid = choose|uuid: Uuid| #[trigger]
            uuids@.contains(uuid) && services.contains(uuid);
        let j = choose|j: int| 0 <= j < uuids@.len() && uuids@[j] == uuid;
        let i = choose|i: int| 0 <= i < services.len() && services[i] == uuid;
        assert(services[i] == uuids@[j]);
    }
    if exists|i: int, j: int|
        0 <= i < services.len() && 0 <= j < uuids@.len() && #[trigger] services[i]
            == #[trigger] uuids@[j] {
        let (i, j) = choose|i: int, j: int|
            0 <= i < services.len() && 0 <= j < uuids@.len() && #[trigger] services[i]
                == #[trigger] uuids@[j];
        assert(uuids@.contains(uuids@[j]));
        assert(services.contains(services[i]));
    }
}

/// Some place of `services` holds `uuid`.
pub open spec fn stands_among(uuid: Uuid, services: Seq<Uuid>) -> bool {
    exists|i: int| 0 <= i < services.len() && #[trigger] services[i] == uuid
}

/// A filter for all of some services takes a device exactly if each specified service is some
/// advertised one.
pub proof fn law_all_services_filter_takes_every_one_of_them<P: Platform>(
    device: DiscoveredDevice<P>,
    filter: ScanFilter,
    uuids: Vec<Uuid>,
    passes: bool,
)
    requires
        filter == ScanFilter::AllServices(uuids),
        call_ensures(filter_device::<P>, (&device, &filter), passes),
    ensures
        passes <==> forall|j: int|
            0 <= j < uuids@.len() ==> stands_among(
                #[trigger] uuids@[j],
                device.adv_data.services@,
            ),
        passes == matches_filter(device.adv_data, filter),
{
    let services = device.adv_data.services@;
    if passes {
        assert forall|j: int| 0 <= j < uuids@.len() implies stands_among(
            #[trigger] uuids@[j],
            services,
        ) by {
            assert(uuids@.contains(uuids@[j]));
        }
    } else {
        let uuid = choose|uuid: Uuid| #[trigger]
            uuids@.contains(uuid) && !services.contains(uuid);
        let j = choose|j: int| 0 <= j < uuids@.len() && uuids@[j] == uuid;
        assert(!stands_among(uuids@[j], services));
    }
}

/// A filter for manufacturer data takes a device exactly if it advertises data of that company with
/// the same bytes, all of them and no more.
pub proof fn law_manufacturer_filter_takes_the_same_bytes<P: Platform>(
    device: DiscoveredDevice<P>,
    filter: ScanFilter,
    key: u16,
    value: Vec<u8>,
    passes: bool,
)
    requires
        filter == ScanFilter::ManufacturerData(key, value),
        call_ensures(filter_device::<P>, (&device, &filter), passes),
    ensures
        passes <==> match device.adv_data.manufacturer_data {
            Some(m) => {
                &&& m.company_id == key
                &&& m.data@.len() == value@.len()
                &&& forall|i: int| 0 <= i < value@.len() ==> m.data@[i] == #[trigger] value@[i]
            },
            None => false,
        },
        passes == matches_filter(device.adv_data, filter),
{
    if let Some(m) = device.adv_data.manufacturer_data {
        if m.data@.len() == value@.len() && forall|i: int|
            0 <= i < value@.len() ==> m.data@[i] == #[trigger] value@[i] {
            assert(m.data@ =~= value@);
        }
    }
}

/// Bit `b` of a byte is 1.
pub open spec fn has_bit(byte: u8, b: u8) -> bool {
    byte & (1u8 << b) != 0
}

/// A masked filter takes a device exactly if it advertises data of that company in which every bit
/// that is 1 in the mask is there and is what is specified, one by one.
pub proof fn law_masked_filter_checks_each_bit_of_the_mask<P: Platform>(
    device: DiscoveredDevice<P>,
    filter: ScanFilter,
    key: u16,
    value: Vec<u8>,
    mask: Vec<u8>,
    passes: bool,
)
    requires
        filter == ScanFilter::ManufacturerDataMasked(key, value, mask),
        mask@.len() == value@.len(),
        call_ensures(filter_device::<P>, (&device, &filter), passes),
    ensures
        passes <==> match device.adv_data.manufacturer_data {
            Some(m) => {
                &&& m.company_id == key
                &&& forall|i: int, b: u8|
                    0 <= i < mask@.len() && b < 8 && #[trigger] has_bit(mask@[i], b) ==> i
                        < m.data@.len() && has_bit(m.data@[i], b) == has_bit(value@[i], b)
            },
            None => false,
        },
        passes == matches_filter(device.adv_data, filter),
{
    if let Some(m) = device.adv_data.manufacturer_data {
        let (data, want, mask) = (m.data@, value@, mask@);
        if agrees_under_mask(data, want, mask) {
            assert forall|i: int, b: u8|
                0 <= i < mask.len() && b < 8 && #[trigger] has_bit(mask[i], b) implies i
                < data.len() && has_bit(data[i], b) == has_bit(want[i], b) by {
                let (d, v, k) = (data[i], want[i], mask[i]);
                assert(k != 0) by (bit_vector)
                    requires
                        k & (1u8 << b) != 0,
                ;
                assert((d & (1u8 << b) != 0) == (v & (1u8 << b) != 0)) by (bit_vector)
                    requires
                        d & k == v & k,
                        k & (1u8 << b) != 0,
                        b < 8,
                ;
            }
        }
        if forall|i: int, b: u8|
            0 <= i < mask.len() && b < 8 && #[trigger] has_bit(mask[i], b) ==> i < data.len()
                && has_bit(data[i], b) == has_bit(want[i], b) {
            assert forall|i: int|
                #![trigger mask[i]]
                0 <= i < mask.len() && i < want.len() && mask[i] != 0 implies i < data.len()
                && data[i] & mask[i] == want[i] & mask[i] by {
                lemma_bits_decide(data, want, mask, i);
            }
        }
    }
}

proof fn lemma_bits_decide(data: Seq<u8>, want: Seq<u8>, mask: Seq<u8>, i: int)
    requires
        0 <= i < mask.len(),
        mask[i] != 0,
        forall|b: u8|
            b < 8 && #[trigger] has_bit(mask[i], b) ==> i < data.len() && has_bit(data[i], b)
                == has_bit(want[i], b),
    ensures
        i < data.len(),
        data[i] & mask[i] == want[i] & mask[i],
{
    let (d, v, k) = (data[i], want[i], mask[i]);
    assert(has_bit(k, 0) || has_bit(k, 1) || has_bit(k, 2) || has_bit(k, 3) || has_bit(k, 4)
        || has_bit(k, 5) || has_bit(k, 6) || has_bit(k, 7)) by {
        assert(k & (1u8 << 0u8) != 0 || k & (1u8 << 1u8) != 0 || k & (1u8 << 2u8) != 0 || k & (1u8
            << 3u8) != 0 || k & (1u8 << 4u8) != 0 || k & (1u8 << 5u8) != 0 || k & (1u8 << 6u8) != 0
            || k & (1u8 << 7u8) != 0) by (bit_vector)
            requires
                k != 0,
        ;
    }
    assert(has_bit(k, 0) ==> has_bit(d, 0) == has_bit(v, 0));
    assert(has_bit(k, 1) ==> has_bit(d, 1) == has_bit(v, 1));
    assert(has_bit(k, 2) ==> has_bit(d, 2) == has_bit(v, 2));
    assert(has_bit(k, 3) ==> has_bit(d, 3) == has_bit(v, 3));
    assert(has_bit(k, 4) ==> has_bit(d, 4) == has_bit(v, 4));
    assert(has_bit(k, 5) ==> has_bit(d, 5) == has_bit(v, 5));
    assert(has_bit(k, 6) ==> has_bit(d, 6) == has_bit(v, 6));
    assert(has_bit(k, 7) ==> has_bit(d, 7) == has_bit(v, 7));
    assert(d & k == v & k) by (bit_vector)
        requires
            k & (1u8 << 0u8) != 0 ==> (d & (1u8 << 0u8) != 0) == (v & (1u8 << 0u8) != 0),
            k & (1u8 << 1u8) != 0 ==> (d & (1u8 << 1u8) != 0) == (v & (1u8 << 1u8) != 0),
            k & (1u8 << 2u8) != 0 ==> (d & (1u8 << 2u8) != 0) == (v & (1u8 << 2u8) != 0),
            k & (1u8 << 3u8) != 0 ==> (d & (1u8 << 3u8) != 0) == (v & (1u8 << 3u8) != 0),
            k & (1u8 << 4u8) != 0 ==> (d & (1u8 << 4u8) != 0) == (v & (1u8 << 4u8) != 0),
            k & (1u8 << 5u8) != 0 ==> (d & (1u8 << 5u8) != 0) == (v & (1u8 << 5u8) != 0),
            k & (1u8 << 6u8) != 0 ==> (d & (1u8 << 6u8) != 0) == (v & (1u8 << 6u8) != 0),
            k & (1u8 << 7u8) != 0 ==> (d & (1u8 << 7u8) != 0) == (v & (1u8 << 7u8) != 0),
    ;
}

/// Exactly those filters are refused of which the data and the mask differ in length.
pub proof fn law_only_an_uneven_mask_is_refused(filter: ScanFilter, result: Result<(), Error>)
    requires
        call_ensures(check_filter, (&filter,), result),
    ensures
        match filter {
            ScanFilter::ManufacturerDataMasked(_, data, mask) => {
                &&& data@.len() == mask@.len() ==> result is Ok
                &&& data@.len() != mask@.len() ==> result matches Err(Error::InvalidFilterMask)
            },
            _ => result is Ok,
        },
        result is Ok <==> is_valid_filter(filter),
{
    if let Err(error) = result {
        assert(error@ == ErrorView::InvalidFilterMask);
    }
}

} // verus!
