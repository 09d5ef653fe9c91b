//! Correlation of palette-indexed textures with their palettes.
//!
//! Metadata declares, for a texture symbol, the symbol of the palette
//! that the texture is indexed into.  The palettes themselves are archive
//! resources like any other; a resource is taken for the palette of a
//! symbol where its archive name contains the symbol.

use vstd::prelude::*;
use crate::names::{base_name, base_name_of, bytes_equal, contains_bytes, name_bytes,
    name_contains, names_equal};
use crate::search::{first_index, first_index_found, first_index_is_first, first_index_missing};
use crate::texture::{TextureFormat, TextureView};

verus! {

/// What metadata says of one texture symbol.
#[derive(Clone, Debug, PartialEq, Eq)]
pub struct MetadataEntry {
    /// The symbol of the texture.
    pub symbol: String,
    /// The attribute `tlut`, where the entry has it.
    pub tlut: Option<String>,
    /// The attribute `tlut_symbol`, where the entry has it.
    pub tlut_symbol: Option<String>,
}

/// A metadata entry, every name by its bytes.
pub struct EntryView {
    pub symbol: Seq<u8>,
    pub tlut: Option<Seq<u8>>,
    pub tlut_symbol: Option<Seq<u8>>,
}

/// The bytes of a name that may be missing.
pub open spec fn optional_bytes(name: Option<String>) -> Option<Seq<u8>> {
    match name {
        Some(n) => Some(name_bytes(n@)),
        None => None,
    }
}

impl View for MetadataEntry {
    type V = EntryView;

    open spec fn view(&self) -> EntryView {
        EntryView {
            symbol: name_bytes(self.symbol@),
            tlut: optional_bytes(self.tlut),
            tlut_symbol: optional_bytes(self.tlut_symbol),
        }
    }
}

impl EntryView {
    /// The palette symbol that the entry declares: `tlut` where it is
    /// there, else `tlut_symbol`.
    pub open spec fn declared(self) -> Option<Seq<u8>> {
        match self.tlut {
            Some(palette) => Some(palette),
            None => self.tlut_symbol,
        }
    }
}

impl MetadataEntry {
    /// An entry of the given symbol and attributes.
    pub fn new(symbol: String, tlut: Option<String>, tlut_symbol: Option<String>) -> (r: Self)
        ensures
            r.symbol == symbol,
            r.tlut == tlut,
            r.tlut_symbol == tlut_symbol,
    {
        MetadataEntry { symbol, tlut, tlut_symbol }
    }

    /// The palette symbol that the entry declares.
    pub fn declared_palette(&self) -> (r: Option<&String>)
        ensures
            match r {
                Some(palette) => self@.declared() == Some(name_bytes(palette@)),
                None => self@.declared() is None,
            },
    {
        match &self.tlut {
            Some(palette) => Some(palette),
            None => match &self.tlut_symbol {
                Some(palette) => Some(palette),
                None => None,
            },
        }
    }
}

/// The views of a sequence of entries.
pub open spec fn entry_views(entries: Seq<MetadataEntry>) -> Seq<EntryView> {
    entries.map_values(|entry: MetadataEntry| entry@)
}

/// The palette symbol of each texture symbol, as a sequence of entries
/// declares it.  Entries that declare no palette are passed over; of two
/// entries for one texture symbol the later counts.
pub open spec fn declared_symbols(entries: Seq<EntryView>) -> Map<Seq<u8>, Seq<u8>>
    decreases entries.len(),
{
    if entries.len() == 0 {
        Map::empty()
    } else {
        let earlier = declared_symbols(entries.drop_last());
        match entries.last().declared() {
            Some(palette) => earlier.insert(entries.last().symbol, palette),
            None => earlier,
        }
    }
}

/// The palette symbols that any entry of a sequence declares.
pub open spec fn declared_palettes(entries: Seq<EntryView>) -> Set<Seq<u8>> {
    Set::new(
        |palette: Seq<u8>|
            exists|i: int|
                0 <= i < entries.len() && (#[trigger] entries[i]).declared() == Some(palette),
    )
}

/// A palette resource under its archive name.
pub type NamedPalette = (Seq<u8>, TextureView);

/// The condition that a palette stands under a given archive name.
pub open spec fn has_name(name: Seq<u8>) -> spec_fn(NamedPalette) -> bool {
    |palette: NamedPalette| palette.0 == name
}

/// The condition that the archive name of a palette contains a symbol.
pub open spec fn mentions(symbol: Seq<u8>) -> spec_fn(NamedPalette) -> bool {
    |palette: NamedPalette| contains_bytes(palette.0, symbol)
}

/// What a correlation knows.
pub struct CorrelationView {
    /// The declared palette symbol of each texture symbol.
    pub symbols: Map<Seq<u8>, Seq<u8>>,
    /// The palette symbols that any texture declares.
    pub tlut_symbols: Set<Seq<u8>>,
    /// The palette resources found so far, in the order in which they are
    /// searched.
    pub palettes: Seq<NamedPalette>,
}

impl CorrelationView {
    /// No archive name stands for two palettes.
    pub open spec fn well_formed(self) -> bool {
        forall|i: int, j: int|
            0 <= i < j < self.palettes.len() ==> (#[trigger] self.palettes[i]).0 != (
            #[trigger] self.palettes[j]).0
    }

    /// Whether a resource of this archive name is taken for a palette:
    /// whether the name contains a declared palette symbol.
    pub open spec fn names_palette(self, name: Seq<u8>) -> bool {
        exists|symbol: Seq<u8>|
            self.tlut_symbols.contains(symbol) && #[trigger] contains_bytes(name, symbol)
    }

    /// The palette symbol declared for the texture at an archive path.
    /// The texture is known by the last component of its path.
    pub open spec fn declared_for(self, path: Seq<u8>) -> Option<Seq<u8>> {
        if self.symbols.dom().contains(base_name(path)) {
            Some(self.symbols[base_name(path)])
        } else {
            None
        }
    }

    /// Where among the palettes the one for the texture at an archive
    /// path stands: the first whose archive name contains the palette
    /// symbol declared for the texture.
    pub open spec fn resolved_index(self, path: Seq<u8>) -> Option<int> {
        match self.declared_for(path) {
            Some(symbol) => first_index(self.palettes, mentions(symbol)),
            None => None,
        }
    }

    /// The palette for the texture at an archive path, under its archive
    /// name.
    pub open spec fn resolved(self, path: Seq<u8>) -> Option<NamedPalette> {
        match self.resolved_index(path) {
            Some(i) => Some(self.palettes[i]),
            None => None,
        }
    }

    /// The palettes after one more was found under an archive name: it
    /// takes the place of the palette of that name, or comes last.
    pub open spec fn with_palette(self, name: Seq<u8>, palette: TextureView) -> Seq<
        NamedPalette,
    > {
        match first_index(self.palettes, has_name(name)) {
            Some(i) => self.palettes.update(i, (name, palette)),
            None => self.palettes.push((name, palette)),
        }
    }
}

/// Resolution takes the first match of one scan: the palette found for a
/// texture is the first, in search order, whose archive name contains the
/// palette symbol declared for the texture; and none is found only where
/// no symbol is declared or no archive name contains it.
pub proof fn resolved_is_first_match(correlation: CorrelationView, path: Seq<u8>)
    ensures
        match correlation.resolved(path) {
            Some(found) => correlation.declared_for(path) matches Some(symbol) && exists|i: int|
                {
                    &&& 0 <= i < correlation.palettes.len()
                    &&& #[trigger] correlation.palettes[i] == found
                    &&& contains_bytes(found.0, symbol)
                    &&& forall|j: int|
                        0 <= j < i ==> !contains_bytes(
                            (#[trigger] correlation.palettes[j]).0,
                            symbol,
                        )
                },
            None => correlation.declared_for(path) matches Some(symbol) ==> forall|j: int|
                0 <= j < correlation.palettes.len() ==> !contains_bytes(
                    (#[trigger] correlation.palettes[j]).0,
                    symbol,
                ),
        },
{
    if correlation.declared_for(path) is Some {
        let symbol = correlation.declared_for(path)->Some_0;
        let palettes = correlation.palettes;
        first_index_is_first(palettes, mentions(symbol));
        let limit = match first_index(palettes, mentions(symbol)) {
            Some(i) => i,
            None => palettes.len() as int,
        };
        assert forall|j: int| 0 <= j < limit implies !contains_bytes(
            (#[trigger] palettes[j]).0,
            symbol,
        ) by {
            assert(!mentions(symbol)(palettes[j]));
        }
    }
}

/// The declared palette symbol of a texture is one of the palette symbols
/// that mark archive names as palettes, whenever the correlation was
/// built from metadata.
pub proof fn declared_symbol_is_known(entries: Seq<EntryView>, symbol: Seq<u8>)
    requires
        declared_symbols(entries).dom().contains(symbol),
    ensures
        declared_palettes(entries).contains(declared_symbols(entries)[symbol]),
    decreases entries.len(),
{
    if entries.len() > 0 {
        let last = entries.last();
        if !(last.declared() is Some && last.symbol == symbol) {
            declared_symbol_is_known(entries.drop_last(), symbol);
        }
    }
}

/// The map that a sequence of pairs stands for, a later pair counting
/// over an earlier one of the same key.
pub open spec fn symbol_table(pairs: Seq<(Seq<u8>, Seq<u8>)>) -> Map<Seq<u8>, Seq<u8>>
    decreases pairs.len(),
{
    if pairs.len() == 0 {
        Map::empty()
    } else {
        symbol_table(pairs.drop_last()).insert(pairs.last().0, pairs.last().1)
    }
}

/// The position of the last pair with a key, -1 where no pair has it.
spec fn last_position(pairs: Seq<(Seq<u8>, Seq<u8>)>, key: Seq<u8>) -> int
    decreases pairs.len(),
{
    if pairs.len() == 0 {
        -1
    } else if pairs.last().0 == key {
        pairs.len() - 1
    } else {
        last_position(pairs.drop_last(), key)
    }
}

/// A key is in the table where a pair has it, and stands for the value of
/// the last such pair.
proof fn symbol_table_lookup(pairs: Seq<(Seq<u8>, Seq<u8>)>, key: Seq<u8>)
    ensures
        -1 <= last_position(pairs, key) < pairs.len(),
        forall|j: int|
            last_position(pairs, key) < j < pairs.len() ==> (#[trigger] pairs[j]).0 != key,
        last_position(pairs, key) < 0 ==> !symbol_table(pairs).dom().contains(key),
        last_position(pairs, key) >= 0 ==> {
            &&& pairs[last_position(pairs, key)].0 == key
            &&& symbol_table(pairs).dom().contains(key)
            &&& symbol_table(pairs)[key] == pairs[last_position(pairs, key)].1
        },
    decreases pairs.len(),
{
    if pairs.len() > 0 && pairs.last().0 != key {
        let front = pairs.drop_last();
        symbol_table_lookup(front, key);
        assert forall|j: int| last_position(pairs, key) < j < pairs.len() implies (
        #[trigger] pairs[j]).0 != key by {
            if j < front.len() {
                assert(front[j] == pairs[j]);
            }
        }
    }
}

/// The declared pairs of texture symbol and palette symbol, by their
/// bytes.
spec fn pair_views(pairs: Seq<(String, String)>) -> Seq<(Seq<u8>, Seq<u8>)> {
    pairs.map_values(|pair: (String, String)| (name_bytes(pair.0@), name_bytes(pair.1@)))
}

/// The palettes under their archive names, by their bytes.
spec fn palette_views(palettes: Seq<(String, TextureFormat)>) -> Seq<NamedPalette> {
    palettes.map_values(|palette: (String, TextureFormat)| (name_bytes(palette.0@), palette.1@))
}

/// The palette symbols among a sequence of declared pairs.
spec fn palette_symbols(pairs: Seq<(Seq<u8>, Seq<u8>)>) -> Set<Seq<u8>> {
    Set::new(
        |palette: Seq<u8>| exists|i: int| 0 <= i < pairs.len() && (#[trigger] pairs[i]).1 == palette,
    )
}

/// Which palette each texture depends on, and the palette resources found
/// for them.  It is built from metadata, filled with palettes in a first
/// pass over the archive, and read in the second.
#[derive(Debug)]
pub struct PaletteCorrelation {
    declared: Vec<(String, String)>,
    palettes: Vec<(String, TextureFormat)>,
}

impl View for PaletteCorrelation {
    type V = CorrelationView;

    closed spec fn view(&self) -> CorrelationView {
        CorrelationView {
            symbols: symbol_table(pair_views(self.declared@)),
            tlut_symbols: palette_symbols(pair_views(self.declared@)),
            palettes: palette_views(self.palettes@),
        }
    }
}

/// What one more pair adds to the table and to the palette symbols.
proof fn pushed_pair(pairs: Seq<(Seq<u8>, Seq<u8>)>, pair: (Seq<u8>, Seq<u8>))
    ensures
        symbol_table(pairs.push(pair)) == symbol_table(pairs).insert(pair.0, pair.1),
        palette_symbols(pairs.push(pair)) == palette_symbols(pairs).insert(pair.1),
{
    let longer = pairs.push(pair);
    assert(longer.drop_last() =~= pairs);
    assert(longer[pairs.len() as int] == pair);
    assert(palette_symbols(longer) =~= palette_symbols(pairs).insert(pair.1));
}

/// What entry `n` adds to what the entries before it declare.
proof fn declared_step(entries: Seq<EntryView>, n: int)
    requires
        0 <= n < entries.len(),
    ensures
        declared_symbols(entries.take(n + 1)) == match entries[n].declared() {
            Some(palette) => declared_symbols(entries.take(n)).insert(entries[n].symbol, palette),
            None => declared_symbols(entries.take(n)),
        },
        declared_palettes(entries.take(n + 1)) == match entries[n].declared() {
            Some(palette) => declared_palettes(entries.take(n)).insert(palette),
            None => declared_palettes(entries.take(n)),
        },
{
    let shorter = entries.take(n);
    let longer = entries.take(n + 1);
    assert(longer.drop_last() =~= shorter);
    let added = match entries[n].declared() {
        Some(palette) => declared_palettes(shorter).insert(palette),
        None => declared_palettes(shorter),
    };
    assert(longer[n] == entries[n]);
    assert(declared_palettes(longer) =~= added);
}

/// Gathers what metadata declares: for each entry its palette symbol,
/// `tlut` before `tlut_symbol`.  Entries with neither are passed over.
/// No palette is known yet.
pub fn build_correlation(entries: &[MetadataEntry]) -> (r: PaletteCorrelation)
    ensures
        r@.symbols == declared_symbols(entry_views(entries@)),
        r@.tlut_symbols == declared_palettes(entry_views(entries@)),
        r@.palettes == Seq::<NamedPalette>::empty(),
        r@.well_formed(),
{
    let mut declared: Vec<(String, String)> = Vec::new();
    let ghost views = entry_views(entries@);
    let mut i: usize = 0;
    while i < entries.len()
        invariant
            i <= entries.len(),
            views == entry_views(entries@),
            symbol_table(pair_views(declared@)) == declared_symbols(views.take(i as int)),
            palette_symbols(pair_views(declared@)) == declared_palettes(views.take(i as int)),
        decreases entries.len() - i,
    {
        let entry = &entries[i];
        let ghost before = pair_views(declared@);
        proof {
            declared_step(views, i as int);
        }
        match entry.declared_palette() {
            Some(palette) => {
                declared.push((entry.symbol.clone(), palette.clone()));
                proof {
                    let pair = (name_bytes(entry.symbol@), name_bytes(palette@));
                    assert(pair_views(declared@) =~= before.push(pair));
                    pushed_pair(before, pair);
                }
            },
            None => {},
        }
        i += 1;
    }
    proof {
        assert(views.take(entries@.len() as int) =~= views);
    }
    PaletteCorrelation { declared, palettes: Vec::new() }
}

impl PaletteCorrelation {
    /// Number of palettes found so far.
    pub fn palette_count(&self) -> (r: usize)
        ensures
            r == self@.palettes.len(),
    {
        self.palettes.len()
    }

    /// Whether a resource of this archive name is taken for a palette:
    /// whether its name contains the palette symbol of any texture.
    pub fn is_palette_name(&self, archive_name: &str) -> (r: bool)
        ensures
            r == self@.names_palette(name_bytes(archive_name@)),
    {
        let ghost pairs = pair_views(self.declared@);
        let ghost name = name_bytes(archive_name@);
        let mut i: usize = 0;
        while i < self.declared.len()
            invariant
                i <= self.declared.len(),
                pairs == pair_views(self.declared@),
                name == name_bytes(archive_name@),
                forall|k: int| 0 <= k < i ==> !contains_bytes(name, (#[trigger] pairs[k]).1),
            decreases self.declared.len() - i,
        {
            if name_contains(archive_name, self.declared[i].1.as_str()) {
                assert(self@.tlut_symbols.contains(pairs[i as int].1));
                return true;
            }
            i += 1;
        }
        proof {
            assert forall|symbol: Seq<u8>|
                self@.tlut_symbols.contains(symbol) implies !(#[trigger] contains_bytes(
                name,
                symbol,
            )) by {
                let k = choose|k: int| 0 <= k < pairs.len() && (#[trigger] pairs[k]).1 == symbol;
                assert(!contains_bytes(name, pairs[k].1));
            }
        }
        false
    }

    /// Records a palette resource under its archive name.  A palette
    /// already known under that name is replaced where it stands; a new
    /// one is searched after the others.
    pub fn add_palette(&mut self, archive_name: String, palette: TextureFormat)
        ensures
            final(self)@.symbols == old(self)@.symbols,
            final(self)@.tlut_symbols == old(self)@.tlut_symbols,
            final(self)@.palettes == old(self)@.with_palette(name_bytes(archive_name@), palette@),
            old(self)@.well_formed() ==> final(self)@.well_formed(),
    {
        let ghost known = palette_views(self.palettes@);
        let ghost name = name_bytes(archive_name@);
        let ghost same_name = has_name(name);
        let mut i: usize = 0;
        while i < self.palettes.len()
            invariant
                i <= self.palettes.len(),
                *self == *old(self),
                known == palette_views(self.palettes@),
                name == name_bytes(archive_name@),
                same_name == has_name(name),
                forall|k: int| 0 <= k < i ==> !same_name(#[trigger] known[k]),
            decreases self.palettes.len() - i,
        {
            if names_equal(self.palettes[i].0.as_str(), archive_name.as_str()) {
                proof {
                    first_index_found(known, same_name, i as int);
                    assert(old(self)@.palettes == known);
                }
                self.palettes.set(i, (archive_name, palette));
                proof {
                    let after = palette_views(self.palettes@);
                    if old(self)@.well_formed() {
                        assert forall|a: int, b: int| 0 <= a < b < after.len() implies (
                        #[trigger] after[a]).0 != (#[trigger] after[b]).0 by {
                            assert(after[a].0 == known[a].0);
                            assert(after[b].0 == known[b].0);
                        }
                    }
                }
                return;
            }
            i += 1;
        }
        proof {
            first_index_missing(known, same_name);
        }
        self.palettes.push((archive_name, palette));
        proof {
            let after = palette_views(self.palettes@);
            if old(self)@.well_formed() {
                assert(old(self)@.palettes == known);
                assert forall|a: int, b: int| 0 <= a < b < after.len() implies (
                #[trigger] after[a]).0 != (#[trigger] after[b]).0 by {
                    assert(after[a].0 == known[a].0);
                    if b < known.len() {
                        assert(after[b].0 == known[b].0);
                    }
                }
            }
        }
    }

    /// The palette symbol declared for the texture at an archive path.
    /// The texture is looked up by the last component of its path.
    pub fn declared_palette_for(&self, archive_texture_name: &str) -> (r: Option<&String>)
        ensures
            match r {
                Some(symbol) => self@.declared_for(name_bytes(archive_texture_name@)) == Some(
                    name_bytes(symbol@),
                ),
                None => self@.declared_for(name_bytes(archive_texture_name@)) is None,
            },
    {
        let base = base_name_of(archive_texture_name.as_bytes());
        let ghost pairs = pair_views(self.declared@);
        let mut i: usize = self.declared.len();
        while i > 0
            invariant
                i <= self.declared.len(),
                pairs == pair_views(self.declared@),
                base@ == base_name(name_bytes(archive_texture_name@)),
                forall|j: int| i <= j < pairs.len() ==> (#[trigger] pairs[j]).0 != base@,
            decreases i,
        {
            i -= 1;
            if bytes_equal(self.declared[i].0.as_str().as_bytes(), base) {
                proof {
                    symbol_table_lookup(pairs, base@);
                    assert(pairs[i as int].0 == base@);
                }
                return Some(&self.declared[i].1);
            }
        }
        proof {
            symbol_table_lookup(pairs, base@);
        }
        None
    }

    /// Where the palette for the texture at an archive path stands.
    fn resolve_index(&self, archive_texture_name: &str) -> (r: Option<usize>)
        ensures
            match r {
                Some(i) => i < self.palettes.len() && self@.resolved_index(
                    name_bytes(archive_texture_name@),
                ) == Some(i as int),
                None => self@.resolved_index(name_bytes(archive_texture_name@)) is None,
            },
    {
        let symbol = match self.declared_palette_for(archive_texture_name) {
            Some(symbol) => symbol,
            None => {
                return None;
            },
        };
        let ghost known = palette_views(self.palettes@);
        let ghost wanted = mentions(name_bytes(symbol@));
        let mut i: usize = 0;
        while i < self.palettes.len()
            invariant
                i <= self.palettes.len(),
                known == palette_views(self.palettes@),
                wanted == mentions(name_bytes(symbol@)),
                self@.declared_for(name_bytes(archive_texture_name@)) == Some(
                    name_bytes(symbol@),
                ),
                forall|k: int| 0 <= k < i ==> !wanted(#[trigger] known[k]),
            decreases self.palettes.len() - i,
        {
            if name_contains(self.palettes[i].0.as_str(), symbol.as_str()) {
                proof {
                    first_index_found(known, wanted, i as int);
                }
                return Some(i);
            }
            i += 1;
        }
        proof {
            first_index_missing(known, wanted);
        }
        None
    }

    /// Finds the palette for the texture at an archive path: the first
    /// palette, in search order, whose archive name contains the palette
    /// symbol that metadata declares for the texture.  There is none
    /// where no symbol is declared for the texture or no palette matches
    /// the symbol.
    pub fn resolve_palette(&self, archive_texture_name: &str) -> (r: Option<&TextureFormat>)
        ensures
            match r {
                Some(palette) => self@.resolved(name_bytes(archive_texture_name@)) matches Some(
                    found,
                ) && found.1 == palette@,
                None => self@.resolved(name_bytes(archive_texture_name@)) is None,
            },
    {
        match self.resolve_index(archive_texture_name) {
            Some(i) => Some(&self.palettes[i].1),
            None => None,
        }
    }

    /// The archive name of the palette for the texture at an archive path.
    pub fn resolve_palette_name(&self, archive_texture_name: &str) -> (r: Option<&String>)
        ensures
            match r {
                Some(name) => self@.resolved(name_bytes(archive_texture_name@)) matches Some(
                    found,
                ) && found.0 == name_bytes(name@),
                None => self@.resolved(name_bytes(archive_texture_name@)) is None,
            },
    {
        match self.resolve_index(archive_texture_name) {
            Some(i) => Some(&self.palettes[i].0),
            None => None,
        }
    }
}

} // verus!
