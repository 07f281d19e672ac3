//! Geospatial computations over polygons of coordinates. The coordinate
//! type is left to the caller: these checks read only how many vertices
//! there are.

use vstd::prelude::*;

verus! {

/// Why a geospatial computation failed.
pub struct GeospatialComputationError {
    pub code: u32,
    pub field: String,
    pub message: String,
}

/// The answer of the ray casting algorithm.
pub struct RayCastingAlgorithmResponse {}

/// The answer of the point orientation computation.
pub struct CrossProductForPointOrientation {}

/// Ray casting of `point` against `polygon`: a polygon needs at least three
/// vertices, otherwise the answer is a 400 on the field `polygon`.
pub fn ray_casting_algorithm<C>(point: C, polygon: Vec<C>) -> (r: Result<RayCastingAlgorithmResponse, GeospatialComputationError>)
    ensures
        r is Ok <==> polygon.len() >= 3,
        r matches Err(e) ==> e.code == 400 && e.field@ == "polygon"@
            && e.message@ == "size of polygon less than three"@,
{
    let polygon_size = polygon.len();
    if polygon_size < 3 {
        return Err(GeospatialComputationError {
            code: 400,
            field: String::from_str("polygon"),
            message: String::from_str("size of polygon less than three"),
        });
    }
    Ok(RayCastingAlgorithmResponse {  })
}

/// Orientation of `point` against `line`: always answers.
pub fn cross_product_for_point_orientation<C>(point: C, line: Vec<C>) -> (r: Result<CrossProductForPointOrientation, GeospatialComputationError>)
    ensures
        r is Ok,
{
    Ok(CrossProductForPointOrientation {  })
}

} // verus!
