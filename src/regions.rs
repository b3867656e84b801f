use vstd::prelude::*;
use crate::context::{RegionView, region_names, regions_contain, regions_view};
use crate::service::AwsRegion;
use crate::text::str_eq;

verus! {

/// The known regions, in their fixed order.
pub open spec fn known_regions() -> Seq<RegionView> {
    seq![
        RegionView { name: "us-east-1"@, display_name: "US East (N. Virginia)"@ },
        RegionView { name: "us-east-2"@, display_name: "US East (Ohio)"@ },
        RegionView { name: "us-west-1"@, display_name: "US West (N. California)"@ },
        RegionView { name: "us-west-2"@, display_name: "US West (Oregon)"@ },
        RegionView { name: "eu-west-1"@, display_name: "Europe (Ireland)"@ },
        RegionView { name: "eu-west-2"@, display_name: "Europe (London)"@ },
        RegionView { name: "eu-west-3"@, display_name: "Europe (Paris)"@ },
        RegionView { name: "eu-central-1"@, display_name: "Europe (Frankfurt)"@ },
        RegionView { name: "ap-northeast-1"@, display_name: "Asia Pacific (Tokyo)"@ },
        RegionView { name: "ap-northeast-2"@, display_name: "Asia Pacific (Seoul)"@ },
        RegionView { name: "ap-southeast-1"@, display_name: "Asia Pacific (Singapore)"@ },
        RegionView { name: "ap-southeast-2"@, display_name: "Asia Pacific (Sydney)"@ },
        RegionView { name: "ap-south-1"@, display_name: "Asia Pacific (Mumbai)"@ },
        RegionView { name: "sa-east-1"@, display_name: "South America (São Paulo)"@ },
    ]
}

/// The table of known regions.
pub struct RegionManager;

impl RegionManager {
    /// Every known region, in order.
    pub fn get_all_regions() -> (r: Vec<AwsRegion>)
        ensures
            regions_view(r@) == known_regions(),
    {
        let r = vec![
            AwsRegion { name: "us-east-1".to_string(), display_name: "US East (N. Virginia)".to_string() },
            AwsRegion { name: "us-east-2".to_string(), display_name: "US East (Ohio)".to_string() },
            AwsRegion { name: "us-west-1".to_string(), display_name: "US West (N. California)".to_string() },
            AwsRegion { name: "us-west-2".to_string(), display_name: "US West (Oregon)".to_string() },
            AwsRegion { name: "eu-west-1".to_string(), display_name: "Europe (Ireland)".to_string() },
            AwsRegion { name: "eu-west-2".to_string(), display_name: "Europe (London)".to_string() },
            AwsRegion { name: "eu-west-3".to_string(), display_name: "Europe (Paris)".to_string() },
            AwsRegion { name: "eu-central-1".to_string(), display_name: "Europe (Frankfurt)".to_string() },
            AwsRegion { name: "ap-northeast-1".to_string(), display_name: "Asia Pacific (Tokyo)".to_string() },
            AwsRegion { name: "ap-northeast-2".to_string(), display_name: "Asia Pacific (Seoul)".to_string() },
            AwsRegion { name: "ap-southeast-1".to_string(), display_name: "Asia Pacific (Singapore)".to_string() },
            AwsRegion { name: "ap-southeast-2".to_string(), display_name: "Asia Pacific (Sydney)".to_string() },
            AwsRegion { name: "ap-south-1".to_string(), display_name: "Asia Pacific (Mumbai)".to_string() },
            AwsRegion { name: "sa-east-1".to_string(), display_name: "South America (São Paulo)".to_string() },
        ];
        assert(regions_view(r@) =~= known_regions());
        r
    }

    /// The known region with that code name, if any.
    pub fn get_region_by_name(name: &str) -> (r: Option<AwsRegion>)
        ensures
            match r {
                Some(g) => g.name@ == name@ && exists|i: int|
                    0 <= i < known_regions().len() && known_regions()[i] == (RegionView {
                        name: g.name@,
                        display_name: g.display_name@,
                    }),
                None => !region_names(known_regions()).contains(name@),
            },
    {
        let all = Self::get_all_regions();
        let mut i: usize = 0;
        while i < all.len()
            invariant
                regions_view(all@) == known_regions(),
                i <= all@.len(),
                forall|j: int| 0 <= j < i ==> region_names(known_regions())[j] != name@,
            decreases all.len() - i,
        {
            if str_eq(all[i].name.as_str(), name) {
                let g = all[i].clone();
                assert(known_regions()[i as int] == regions_view(all@)[i as int]);
                return Some(g);
            }
            assert(region_names(known_regions())[i as int] == all@[i as int].name@);
            i = i + 1;
        }
        None
    }

    /// Whether a region of that code name is known.
    pub fn is_valid_region(name: &str) -> (r: bool)
        ensures
            r == region_names(known_regions()).contains(name@),
    {
        let all = Self::get_all_regions();
        regions_contain(&all, name)
    }
}

} // verus!
