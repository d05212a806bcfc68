use vstd::prelude::*;
use crate::error::BuildError;
use crate::ids::fresh_id;
use crate::model::{Artist, Paintings};
use crate::record::CsvArtist;
use crate::years::{first_sep, has_year_sep, split_years, trim_spec};

verus! {

/// Assemble one artist aggregate from a validated catalog record and its
/// already-built image groups: derive born and died from the free-text year
/// range, copy the descriptive fields verbatim, and allocate the artist's
/// own stable identifier. A year range with no separator is a hard error
/// naming the artist, never a silently empty field.
pub fn build_artist(rec: CsvArtist, paintings: Vec<Paintings>) -> (r: Result<Artist, BuildError>)
    ensures
        r is Ok <==> has_year_sep(rec.years@),
        r matches Ok(a) ==> a.name == rec.name && a.born@ == trim_spec(
            rec.years@.take(first_sep(rec.years@)),
        ) && a.died@ == trim_spec(rec.years@.skip(first_sep(rec.years@) + 1)) && a.genre
            == rec.genre && a.nationality == rec.nationality && a.bio == rec.bio && a.wikipedia
            == rec.wikipedia && a.paintings == paintings && a.id@.len() == 36,
        r matches Err(e) ==> e matches BuildError::YearRange { name } && name == rec.name,
        r matches Ok(a) ==> ((forall|i: int| 0 <= i < paintings@.len() ==> paintings@[i].wf())
            <==> a.wf()),
{
    match split_years(rec.years.as_str()) {
        Some(halves) => {
            let a = Artist {
                id: fresh_id(),
                name: rec.name,
                born: halves.0,
                died: halves.1,
                genre: rec.genre,
                nationality: rec.nationality,
                bio: rec.bio,
                wikipedia: rec.wikipedia,
                paintings,
            };
            Ok(a)
        },
        None => Err(BuildError::YearRange { name: rec.name }),
    }
}

} // verus!
