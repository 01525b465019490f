//! Data returned by the RomM API that the screens work on.

use vstd::prelude::*;

verus! {

/// A firmware file associated with a platform.
#[derive(Debug, Clone)]
pub struct Firmware {
    pub id: u64,
    pub file_name: String,
    pub file_name_no_tags: String,
    pub file_name_no_ext: String,
    pub file_extension: String,
    pub file_path: String,
    pub file_size_bytes: u64,
    pub full_path: String,
    pub is_verified: bool,
    pub crc_hash: String,
    pub md5_hash: String,
    pub sha1_hash: String,
    pub missing_from_fs: bool,
    pub created_at: String,
    pub updated_at: String,
}

/// A gaming platform (console or system).
#[derive(Debug, Clone)]
pub struct Platform {
    pub id: u64,
    pub slug: String,
    pub fs_slug: String,
    pub rom_count: u64,
    pub name: String,
    pub igdb_slug: Option<String>,
    pub moby_slug: Option<String>,
    pub hltb_slug: Option<String>,
    pub custom_name: Option<String>,
    pub igdb_id: Option<i64>,
    pub sgdb_id: Option<i64>,
    pub moby_id: Option<i64>,
    pub launchbox_id: Option<i64>,
    pub ss_id: Option<i64>,
    pub ra_id: Option<i64>,
    pub hasheous_id: Option<i64>,
    pub tgdb_id: Option<i64>,
    pub flashpoint_id: Option<i64>,
    pub category: Option<String>,
    pub generation: Option<i64>,
    pub family_name: Option<String>,
    pub family_slug: Option<String>,
    pub url: Option<String>,
    pub url_logo: Option<String>,
    pub firmware: Vec<Firmware>,
    pub aspect_ratio: Option<String>,
    pub created_at: String,
    pub updated_at: String,
    pub fs_size_bytes: u64,
    pub is_unidentified: bool,
    pub is_identified: bool,
    pub missing_from_fs: bool,
    pub display_name: Option<String>,
}

/// A single ROM file and its metadata.
#[derive(Debug, Clone)]
pub struct Rom {
    pub id: u64,
    pub platform_id: u64,
    pub platform_slug: Option<String>,
    pub platform_fs_slug: Option<String>,
    pub platform_custom_name: Option<String>,
    pub platform_display_name: Option<String>,
    pub fs_name: String,
    pub fs_name_no_tags: String,
    pub fs_name_no_ext: String,
    pub fs_extension: String,
    pub fs_path: String,
    pub fs_size_bytes: u64,
    pub name: String,
    pub slug: Option<String>,
    pub summary: Option<String>,
    pub path_cover_small: Option<String>,
    pub path_cover_large: Option<String>,
    pub url_cover: Option<String>,
    pub is_unidentified: bool,
    pub is_identified: bool,
}

/// A page of ROMs returned by the API.
#[derive(Debug, Clone)]
pub struct RomList {
    pub items: Vec<Rom>,
    pub total: u64,
    pub limit: u64,
    pub offset: u64,
}

/// Row of the virtual (autogenerated) collections listing.
#[derive(Debug, Clone)]
pub struct VirtualCollectionRow {
    pub id: String,
    pub name: String,
    pub collection_type: String,
    pub rom_count: u64,
    pub is_virtual: bool,
}

/// Manual, smart or virtual collection shown in the library collections pane.
///
/// Virtual collections carry their string id in `virtual_id`; their numeric `id` is 0.
#[derive(Debug, Clone)]
pub struct Collection {
    pub id: u64,
    pub name: String,
    pub collection_type: Option<String>,
    pub rom_count: Option<u64>,
    pub is_smart: bool,
    pub is_virtual: bool,
    pub virtual_id: Option<String>,
}

/// Field-by-field copy of an optional string.
pub fn dup_opt_string(s: &Option<String>) -> (r: Option<String>)
    ensures
        r == *s,
{
    match s {
        Some(x) => Some(x.clone()),
        None => None,
    }
}

impl Rom {
    /// An equal copy of this ROM record.
    pub fn duplicate(&self) -> (r: Rom)
        ensures
            r == *self,
    {
        Rom {
            id: self.id,
            platform_id: self.platform_id,
            platform_slug: dup_opt_string(&self.platform_slug),
            platform_fs_slug: dup_opt_string(&self.platform_fs_slug),
            platform_custom_name: dup_opt_string(&self.platform_custom_name),
            platform_display_name: dup_opt_string(&self.platform_display_name),
            fs_name: self.fs_name.clone(),
            fs_name_no_tags: self.fs_name_no_tags.clone(),
            fs_name_no_ext: self.fs_name_no_ext.clone(),
            fs_extension: self.fs_extension.clone(),
            fs_path: self.fs_path.clone(),
            fs_size_bytes: self.fs_size_bytes,
            name: self.name.clone(),
            slug: dup_opt_string(&self.slug),
            summary: dup_opt_string(&self.summary),
            path_cover_small: dup_opt_string(&self.path_cover_small),
            path_cover_large: dup_opt_string(&self.path_cover_large),
            url_cover: dup_opt_string(&self.url_cover),
            is_unidentified: self.is_unidentified,
            is_identified: self.is_identified,
        }
    }
}

/// An equal copy of a list of ROM records.
pub fn dup_roms(v: &[Rom]) -> (r: Vec<Rom>)
    ensures
        r@ == v@,
{
    let mut out: Vec<Rom> = Vec::new();
    let mut i: usize = 0;
    while i < v.len()
        invariant
            i <= v@.len(),
            out@ == v@.take(i as int),
        decreases v@.len() - i,
    {
        out.push(v[i].duplicate());
        assert(v@.take(i as int).push(v@[i as int]) =~= v@.take(i + 1));
        i += 1;
    }
    assert(v@.take(v@.len() as int) =~= v@);
    out
}

impl RomList {
    /// An equal copy of this page.
    pub fn duplicate(&self) -> (r: RomList)
        ensures
            r.items@ == self.items@,
            r.total == self.total,
            r.limit == self.limit,
            r.offset == self.offset,
    {
        RomList {
            items: dup_roms(self.items.as_slice()),
            total: self.total,
            limit: self.limit,
            offset: self.offset,
        }
    }
}

/// The collection row shown for a virtual collection.
pub open spec fn collection_of_virtual(v: VirtualCollectionRow) -> Collection {
    Collection {
        id: 0,
        name: v.name,
        collection_type: Some(v.collection_type),
        rom_count: Some(v.rom_count),
        is_smart: false,
        is_virtual: true,
        virtual_id: Some(v.id),
    }
}

impl Collection {
    /// Builds the collections-pane row of a virtual collection: numeric id 0,
    /// not smart, virtual, string id kept in `virtual_id`.
    pub fn from_virtual(v: VirtualCollectionRow) -> (c: Collection)
        ensures
            c == collection_of_virtual(v),
    {
        Collection {
            id: 0,
            name: v.name,
            collection_type: Some(v.collection_type),
            rom_count: Some(v.rom_count),
            is_smart: false,
            is_virtual: true,
            virtual_id: Some(v.id),
        }
    }
}

impl From<VirtualCollectionRow> for Collection {
    fn from(v: VirtualCollectionRow) -> (c: Collection) {
        Collection::from_virtual(v)
    }
}

impl vstd::std_specs::convert::FromSpecImpl<VirtualCollectionRow> for Collection {
    open spec fn obeys_from_spec() -> bool {
        true
    }

    open spec fn from_spec(v: VirtualCollectionRow) -> Collection {
        collection_of_virtual(v)
    }
}

/// A rectangle of terminal cells, as the layout hands it out.
#[derive(Debug, Clone, Copy, PartialEq, Eq, Structural)]
pub struct Area {
    pub x: u16,
    pub y: u16,
    pub width: u16,
    pub height: u16,
}

/// The rectangle lies on the screen's coordinate range, as every laid-out rectangle does.
pub open spec fn area_fits(a: Area) -> bool {
    &&& a.x + a.width <= u16::MAX
    &&& a.y + a.height <= u16::MAX
}

} // verus!
